//! The options of the attribute that marks a function as a job.
use crate::decimal::{parse_u32, parsed_u32};
use crate::spawn::TaskView;
use crate::statement::opt_string;
use crate::utils::same_text;
use core::time::Duration;
use vstd::prelude::*;
use vstd::seq_lib::*;

verus! {

/// A number as it is written in an attribute.
#[derive(Debug, PartialEq)]
pub struct NumberLit {
    /// The number's digits in base ten, without separators and suffix.
    pub digits: String,
    /// Tells whether the digits can be read as a floating-point number.
    pub is_f64: bool,
}

/// A literal in an attribute.
#[derive(Debug, PartialEq)]
pub enum AttrLit {
    Str(String),
    Int(NumberLit),
    Float(NumberLit),
    Bool(bool),
    /// Any other kind of literal.
    Other,
}

/// The first item of a list in an attribute.
#[derive(Debug, PartialEq)]
pub enum ListHead {
    /// A path, as it is written.
    Path(String),
    /// Anything else.
    Other,
    /// The list is empty.
    Missing,
}

/// What stands behind the path of an attribute argument.
#[derive(Debug, PartialEq)]
pub enum MetaValue {
    /// Nothing.
    Word,
    /// A list in round brackets.
    List(ListHead),
    /// A value behind an equals sign.
    Value(AttrLit),
}

/// An argument of the attribute.
#[derive(Debug, PartialEq)]
pub enum JobArg {
    /// A literal alone.
    Lit(AttrLit),
    /// A path, with what stands behind it. The path is known by its name where it is a single
    /// identifier.
    Meta { ident: Option<String>, value: MetaValue },
}

/// Why an argument is not accepted.
#[derive(Debug, Clone, Copy, PartialEq, Eq, Structural)]
pub enum ArgError {
    /// There is no such option, it takes no such value, or it was given before.
    Unexpected,
    /// The number cannot be read.
    Number,
}

/// The options that the arguments set.
#[derive(Debug, PartialEq)]
pub struct JobOptions {
    pub proto: Option<String>,
    pub name: Option<String>,
    pub channel_name: Option<String>,
    pub retries: Option<u32>,
    /// The digits of the number of seconds.
    pub backoff_secs: Option<String>,
    pub ordered: Option<bool>,
}

/// What a [`JobOptions`] stands for.
pub struct JobOptionsView {
    pub proto: Option<Seq<char>>,
    pub name: Option<Seq<char>>,
    pub channel_name: Option<Seq<char>>,
    pub retries: Option<u32>,
    pub backoff_secs: Option<Seq<char>>,
    pub ordered: Option<bool>,
}

impl View for JobOptions {
    type V = JobOptionsView;

    open spec fn view(&self) -> JobOptionsView {
        JobOptionsView {
            proto: opt_string(self.proto),
            name: opt_string(self.name),
            channel_name: opt_string(self.channel_name),
            retries: self.retries,
            backoff_secs: opt_string(self.backoff_secs),
            ordered: self.ordered,
        }
    }
}

/// No options.
pub open spec fn no_options() -> JobOptionsView {
    JobOptionsView {
        proto: None,
        name: None,
        channel_name: None,
        retries: None,
        backoff_secs: None,
        ordered: None,
    }
}

/// What an argument asks for.
pub enum Setting {
    Proto(Seq<char>),
    Name(Seq<char>),
    ChannelName(Seq<char>),
    /// The number of retries, where it can be read.
    Retries(Option<u32>),
    /// The digits of the number of seconds, where they can be read.
    BackoffSecs(Option<Seq<char>>),
    Ordered(bool),
    /// The argument is passed over.
    Nothing,
    /// The argument asks for nothing that there is.
    Unexpected,
}

/// The digits of a number that can be read as a floating-point number.
pub open spec fn float_digits(n: NumberLit) -> Option<Seq<char>> {
    if n.is_f64 {
        Some(n.digits@)
    } else {
        None
    }
}

/// What an argument with a known name and a value asks for.
pub open spec fn value_setting(name: Seq<char>, lit: AttrLit) -> Setting {
    match lit {
        AttrLit::Str(s) => if name == "name"@ {
            Setting::Name(s@)
        } else if name == "channel_name"@ {
            Setting::ChannelName(s@)
        } else {
            Setting::Unexpected
        },
        AttrLit::Int(n) => if name == "retries"@ {
            Setting::Retries(parsed_u32(n.digits@))
        } else if name == "backoff_secs"@ {
            Setting::BackoffSecs(float_digits(n))
        } else {
            Setting::Unexpected
        },
        AttrLit::Float(n) => if name == "backoff_secs"@ {
            Setting::BackoffSecs(float_digits(n))
        } else {
            Setting::Unexpected
        },
        AttrLit::Bool(b) => if name == "ordered"@ {
            Setting::Ordered(b)
        } else {
            Setting::Unexpected
        },
        AttrLit::Other => Setting::Unexpected,
    }
}

/// What an argument asks for. A text alone is the job's name. A path of more than one
/// identifier is passed over.
pub open spec fn setting(arg: JobArg) -> Setting {
    match arg {
        JobArg::Lit(AttrLit::Str(s)) => Setting::Name(s@),
        JobArg::Lit(_) => Setting::Unexpected,
        JobArg::Meta { ident: None, value } => Setting::Nothing,
        JobArg::Meta { ident: Some(name), value } => match value {
            MetaValue::Word => if name@ == "ordered"@ {
                Setting::Ordered(true)
            } else {
                Setting::Unexpected
            },
            MetaValue::List(ListHead::Path(path)) => if name@ == "proto"@ {
                Setting::Proto(path@)
            } else {
                Setting::Unexpected
            },
            MetaValue::List(_) => Setting::Unexpected,
            MetaValue::Value(lit) => value_setting(name@, lit),
        },
    }
}

/// The options with a setting made, or why it is not accepted. Each option is set once.
pub open spec fn with_setting(options: JobOptionsView, setting: Setting) -> Result<
    JobOptionsView,
    ArgError,
> {
    match setting {
        Setting::Proto(p) if options.proto is None => Ok(
            JobOptionsView { proto: Some(p), ..options },
        ),
        Setting::Name(n) if options.name is None => Ok(
            JobOptionsView { name: Some(n), ..options },
        ),
        Setting::ChannelName(c) if options.channel_name is None => Ok(
            JobOptionsView { channel_name: Some(c), ..options },
        ),
        Setting::Retries(n) if options.retries is None => match n {
            Some(_) => Ok(JobOptionsView { retries: n, ..options }),
            None => Err(ArgError::Number),
        },
        Setting::BackoffSecs(d) if options.backoff_secs is None => match d {
            Some(_) => Ok(JobOptionsView { backoff_secs: d, ..options }),
            None => Err(ArgError::Number),
        },
        Setting::Ordered(b) if options.ordered is None => Ok(
            JobOptionsView { ordered: Some(b), ..options },
        ),
        Setting::Nothing => Ok(options),
        _ => Err(ArgError::Unexpected),
    }
}

/// Says that an argument is a list that lacks the item it is read by.
pub open spec fn lacks_item(arg: JobArg) -> bool {
    arg matches JobArg::Meta { ident: Some(_), value: MetaValue::List(ListHead::Missing) }
}

impl JobOptions {
    /// No options.
    pub fn new() -> (options: Self)
        ensures
            options@ == no_options(),
    {
        JobOptions {
            proto: None,
            name: None,
            channel_name: None,
            retries: None,
            backoff_secs: None,
            ordered: None,
        }
    }

    fn set_name(&mut self, name: String) -> (r: Result<(), ArgError>)
        ensures
            final(self)@ == (match with_setting(old(self)@, Setting::Name(name@)) {
                Ok(o) => o,
                Err(_) => old(self)@,
            }),
            r == (match with_setting(old(self)@, Setting::Name(name@)) {
                Ok(_) => Ok(()),
                Err(e) => Err(e),
            }),
    {
        if self.name.is_some() {
            return Err(ArgError::Unexpected);
        }
        self.name = Some(name);
        Ok(())
    }

    fn set_backoff_secs(&mut self, n: NumberLit) -> (r: Result<(), ArgError>)
        ensures
            final(self)@ == (match with_setting(
                old(self)@,
                Setting::BackoffSecs(float_digits(n)),
            ) {
                Ok(o) => o,
                Err(_) => old(self)@,
            }),
            r == (match with_setting(old(self)@, Setting::BackoffSecs(float_digits(n))) {
                Ok(_) => Ok(()),
                Err(e) => Err(e),
            }),
    {
        if self.backoff_secs.is_some() {
            return Err(ArgError::Unexpected);
        }
        if !n.is_f64 {
            return Err(ArgError::Number);
        }
        self.backoff_secs = Some(n.digits);
        Ok(())
    }

    fn set_ordered(&mut self, ordered: bool) -> (r: Result<(), ArgError>)
        ensures
            final(self)@ == (match with_setting(old(self)@, Setting::Ordered(ordered)) {
                Ok(o) => o,
                Err(_) => old(self)@,
            }),
            r == (match with_setting(old(self)@, Setting::Ordered(ordered)) {
                Ok(_) => Ok(()),
                Err(e) => Err(e),
            }),
    {
        if self.ordered.is_some() {
            return Err(ArgError::Unexpected);
        }
        self.ordered = Some(ordered);
        Ok(())
    }

    /// Takes an argument with a known name and a value.
    fn set_value(&mut self, name: &str, lit: AttrLit) -> (r: Result<(), ArgError>)
        ensures
            final(self)@ == (match with_setting(old(self)@, value_setting(name@, lit)) {
                Ok(o) => o,
                Err(_) => old(self)@,
            }),
            r == (match with_setting(old(self)@, value_setting(name@, lit)) {
                Ok(_) => Ok(()),
                Err(e) => Err(e),
            }),
    {
        match lit {
            AttrLit::Str(s) => {
                if same_text(name, "name") {
                    return self.set_name(s);
                }
                if same_text(name, "channel_name") && self.channel_name.is_none() {
                    self.channel_name = Some(s);
                    return Ok(());
                }
            },
            AttrLit::Int(n) => {
                if same_text(name, "retries") {
                    if self.retries.is_some() {
                        return Err(ArgError::Unexpected);
                    }
                    return match parse_u32(n.digits.as_str()) {
                        Some(retries) => {
                            self.retries = Some(retries);
                            Ok(())
                        },
                        None => Err(ArgError::Number),
                    };
                }
                if same_text(name, "backoff_secs") {
                    return self.set_backoff_secs(n);
                }
            },
            AttrLit::Float(n) => {
                if same_text(name, "backoff_secs") {
                    return self.set_backoff_secs(n);
                }
            },
            AttrLit::Bool(b) => {
                if same_text(name, "ordered") {
                    return self.set_ordered(b);
                }
            },
            AttrLit::Other => {},
        }
        Err(ArgError::Unexpected)
    }
}

/// Takes an argument of the attribute. One that is not accepted changes nothing.
pub fn interpret_job_arg(options: &mut JobOptions, arg: JobArg) -> (r: Result<(), ArgError>)
    requires
        !lacks_item(arg),
    ensures
        final(options)@ == (match with_setting(old(options)@, setting(arg)) {
            Ok(o) => o,
            Err(_) => old(options)@,
        }),
        r == (match with_setting(old(options)@, setting(arg)) {
            Ok(_) => Ok(()),
            Err(e) => Err(e),
        }),
{
    match arg {
        JobArg::Lit(AttrLit::Str(s)) => options.set_name(s),
        JobArg::Lit(_) => Err(ArgError::Unexpected),
        JobArg::Meta { ident: None, .. } => Ok(()),
        JobArg::Meta { ident: Some(name), value } => {
            let name = name.as_str();
            match value {
                MetaValue::Word => if same_text(name, "ordered") {
                    options.set_ordered(true)
                } else {
                    Err(ArgError::Unexpected)
                },
                MetaValue::List(ListHead::Path(path)) => if same_text(name, "proto")
                    && options.proto.is_none() {
                    options.proto = Some(path);
                    Ok(())
                } else {
                    Err(ArgError::Unexpected)
                },
                MetaValue::List(_) => Err(ArgError::Unexpected),
                MetaValue::Value(lit) => options.set_value(name, lit),
            }
        },
    }
}

/// The options after one more argument. One that is not accepted changes nothing.
pub open spec fn after_arg(options: JobOptionsView, arg: JobArg) -> JobOptionsView {
    match with_setting(options, setting(arg)) {
        Ok(o) => o,
        Err(_) => options,
    }
}

/// The options that the arguments of an attribute set.
pub open spec fn options_of(args: Seq<JobArg>) -> JobOptionsView {
    args.fold_left(no_options(), |options: JobOptionsView, arg: JobArg| after_arg(options, arg))
}

/// The arguments that are not accepted, by their places, and why.
pub open spec fn errors_of(args: Seq<JobArg>) -> Seq<(usize, ArgError)>
    decreases args.len(),
{
    if args.len() == 0 {
        seq![]
    } else {
        let earlier = args.drop_last();
        match with_setting(options_of(earlier), setting(args.last())) {
            Ok(_) => errors_of(earlier),
            Err(e) => errors_of(earlier).push(((args.len() - 1) as usize, e)),
        }
    }
}

/// A call that sets a default option of a job.
#[derive(Debug, PartialEq)]
pub enum BuilderCall {
    /// Sets the options with the function at this path.
    SetProto(String),
    SetChannelName(String),
    SetRetries(u32),
    /// Sets the backoff to this number of seconds, given by its digits.
    SetRetryBackoff(String),
    SetOrdered(bool),
}

/// What a [`BuilderCall`] stands for.
pub enum CallView {
    SetProto(Seq<char>),
    SetChannelName(Seq<char>),
    SetRetries(u32),
    SetRetryBackoff(Seq<char>),
    SetOrdered(bool),
}

impl View for BuilderCall {
    type V = CallView;

    open spec fn view(&self) -> CallView {
        match *self {
            BuilderCall::SetProto(p) => CallView::SetProto(p@),
            BuilderCall::SetChannelName(c) => CallView::SetChannelName(c@),
            BuilderCall::SetRetries(n) => CallView::SetRetries(n),
            BuilderCall::SetRetryBackoff(d) => CallView::SetRetryBackoff(d@),
            BuilderCall::SetOrdered(b) => CallView::SetOrdered(b),
        }
    }
}

/// What a chain of calls stands for.
pub open spec fn calls_view(chain: Seq<BuilderCall>) -> Seq<CallView> {
    chain.map_values(|c: BuilderCall| c@)
}

/// The call that applies the prototype, if there is one.
pub open spec fn proto_call(options: JobOptionsView) -> Option<CallView> {
    match options.proto {
        Some(p) => Some(CallView::SetProto(p)),
        None => None,
    }
}

/// The call that sets the channel name, if it is set.
pub open spec fn channel_name_call(options: JobOptionsView) -> Option<CallView> {
    match options.channel_name {
        Some(c) => Some(CallView::SetChannelName(c)),
        None => None,
    }
}

/// The call that sets the number of retries, if it is set.
pub open spec fn retries_call(options: JobOptionsView) -> Option<CallView> {
    match options.retries {
        Some(n) => Some(CallView::SetRetries(n)),
        None => None,
    }
}

/// The call that sets the backoff, if it is set.
pub open spec fn backoff_call(options: JobOptionsView) -> Option<CallView> {
    match options.backoff_secs {
        Some(d) => Some(CallView::SetRetryBackoff(d)),
        None => None,
    }
}

/// The call that sets whether the job is ordered, if that is set.
pub open spec fn ordered_call(options: JobOptionsView) -> Option<CallView> {
    match options.ordered {
        Some(b) => Some(CallView::SetOrdered(b)),
        None => None,
    }
}

/// A chain, with one more call if there is one.
pub open spec fn and_then_call(chain: Seq<CallView>, call: Option<CallView>) -> Seq<CallView> {
    match call {
        Some(c) => chain.push(c),
        None => chain,
    }
}

/// The calls that set the given options: one for each option that is set, and the prototype
/// before the others.
pub open spec fn chain_of(options: JobOptionsView) -> Seq<CallView> {
    let proto = and_then_call(seq![], proto_call(options));
    let channel_name = and_then_call(proto, channel_name_call(options));
    let retries = and_then_call(channel_name, retries_call(options));
    let backoff = and_then_call(retries, backoff_call(options));
    and_then_call(backoff, ordered_call(options))
}

/// Writes down the calls that set the given options.
pub fn chain(options: JobOptions) -> (chain: Vec<BuilderCall>)
    ensures
        calls_view(chain@) == chain_of(options@),
{
    let mut chain: Vec<BuilderCall> = Vec::new();
    if let Some(p) = options.proto {
        chain.push(BuilderCall::SetProto(p));
    }
    if let Some(c) = options.channel_name {
        chain.push(BuilderCall::SetChannelName(c));
    }
    if let Some(n) = options.retries {
        chain.push(BuilderCall::SetRetries(n));
    }
    if let Some(d) = options.backoff_secs {
        chain.push(BuilderCall::SetRetryBackoff(d));
    }
    if let Some(b) = options.ordered {
        chain.push(BuilderCall::SetOrdered(b));
    }
    assert(calls_view(chain@) =~= chain_of(options@));
    chain
}

/// What is made of a function that is marked as a job.
#[derive(Debug, PartialEq)]
pub struct JobPlan {
    /// The arguments that are not accepted, by their places, and why.
    pub errors: Vec<(usize, ArgError)>,
    /// The job's name; `None` for the full path of the function.
    pub name: Option<String>,
    /// The calls that set the job's default options.
    pub chain: Vec<BuilderCall>,
    /// The number of values that the function takes from the registry's context.
    pub contexts: usize,
}

/// Plans a job from the arguments of the attribute and the number of the function's parameters,
/// the first of which is the job that is being run.
pub fn job(args: Vec<JobArg>, inputs: usize) -> (plan: JobPlan)
    requires
        forall|i: int| 0 <= i < args@.len() ==> !lacks_item(#[trigger] args@[i]),
    ensures
        plan.errors@ == errors_of(args@),
        opt_string(plan.name) == options_of(args@).name,
        calls_view(plan.chain@) == chain_of(options_of(args@)),
        plan.contexts == (if inputs == 0 {
            0
        } else {
            inputs - 1
        }),
{
    let mut options = JobOptions::new();
    let mut errors: Vec<(usize, ArgError)> = Vec::new();
    let ghost all = args@;
    let mut place: usize = 0;
    let len: usize = args.len();
    for arg in it: args
        invariant
            it.seq() == all,
            len == all.len(),
            place == it.index(),
            forall|i: int| 0 <= i < all.len() ==> !lacks_item(#[trigger] all[i]),
            options@ == options_of(all.take(it.index())),
            errors@ == errors_of(all.take(it.index())),
    {
        let ghost next = all.take(it.index() + 1);
        assert(next.drop_last() == all.take(it.index()));
        assert(next.last() == arg);
        assert(!lacks_item(all[it.index()]));
        match interpret_job_arg(&mut options, arg) {
            Ok(_) => {},
            Err(e) => {
                errors.push((place, e));
            },
        }
        place += 1;
        assert(options@ == options_of(next));
        assert(errors@ == errors_of(next));
    }
    assert(all.take(all.len() as int) == all);
    let contexts: usize = if inputs == 0 {
        0
    } else {
        inputs - 1
    };
    let JobOptions { proto, name, channel_name, retries, backoff_secs, ordered } = options;
    let chain = chain(
        JobOptions { proto, name: None, channel_name, retries, backoff_secs, ordered },
    );
    JobPlan { errors, name, chain, contexts }
}

/// The options that were given can be told from what they stand for.
pub proof fn law_options_hold_what_was_given(options: JobOptions)
    ensures
        options.proto matches Some(s) ==> options@.proto == Some(s@),
        options.proto is None ==> options@.proto is None,
        options.name matches Some(s) ==> options@.name == Some(s@),
        options.name is None ==> options@.name is None,
        options.channel_name matches Some(s) ==> options@.channel_name == Some(s@),
        options.channel_name is None ==> options@.channel_name is None,
        options.retries == options@.retries,
        options.backoff_secs matches Some(s) ==> options@.backoff_secs == Some(s@),
        options.backoff_secs is None ==> options@.backoff_secs is None,
        options.ordered == options@.ordered,
{
}

/// An argument that is a text, or has one as its value, sets the option of its name to that very
/// text, and no other: alone and under `name` the job's name, under `channel_name` the channel's.
pub proof fn law_text_is_kept(options: JobOptionsView, key: String, text: String)
    ensures
        ({
            let alone = with_setting(options, setting(JobArg::Lit(AttrLit::Str(text))));
            let keyed = with_setting(
                options,
                setting(
                    JobArg::Meta {
                        ident: Some(key),
                        value: MetaValue::Value(AttrLit::Str(text)),
                    },
                ),
            );
            &&& options.name is None ==> alone == Ok::<JobOptionsView, ArgError>(
                JobOptionsView { name: Some(text@), ..options },
            )
            &&& options.name is Some ==> alone is Err
            &&& key@ == "name"@ ==> keyed == alone
            &&& key@ == "channel_name"@ && options.channel_name is None ==> keyed == Ok::<JobOptionsView, ArgError>(
                JobOptionsView { channel_name: Some(text@), ..options },
            )
            &&& key@ == "channel_name"@ && options.channel_name is Some ==> keyed is Err
            &&& key@ != "name"@ && key@ != "channel_name"@ ==> keyed == Err::<
                JobOptionsView,
                ArgError,
            >(ArgError::Unexpected)
        }),
{
    reveal_strlit("name");
    reveal_strlit("channel_name");
    assert("name"@.len() != "channel_name"@.len());
}

/// An argument with a whole number sets the retries to what its digits are read as, or the
/// backoff to the digits themselves, and one with a fraction the backoff only.
pub proof fn law_number_is_kept(options: JobOptionsView, key: String, n: NumberLit)
    ensures
        ({
            let whole = with_setting(
                options,
                setting(
                    JobArg::Meta { ident: Some(key), value: MetaValue::Value(AttrLit::Int(n)) },
                ),
            );
            let fraction = with_setting(
                options,
                setting(
                    JobArg::Meta { ident: Some(key), value: MetaValue::Value(AttrLit::Float(n)) },
                ),
            );
            let unexpected = Err::<JobOptionsView, ArgError>(ArgError::Unexpected);
            let number = Err::<JobOptionsView, ArgError>(ArgError::Number);
            &&& key@ == "retries"@ ==> fraction == unexpected && whole == (if options.retries is Some {
                unexpected
            } else if parsed_u32(n.digits@) is None {
                number
            } else {
                Ok::<JobOptionsView, ArgError>(JobOptionsView { retries: parsed_u32(n.digits@), ..options })
            })
            &&& key@ == "backoff_secs"@ ==> fraction == whole && whole == (if options.backoff_secs
                is Some {
                unexpected
            } else if !n.is_f64 {
                number
            } else {
                Ok::<JobOptionsView, ArgError>(JobOptionsView { backoff_secs: Some(n.digits@), ..options })
            })
            &&& key@ != "retries"@ && key@ != "backoff_secs"@ ==> whole == unexpected && fraction
                == unexpected
        }),
{
    reveal_strlit("retries");
    reveal_strlit("backoff_secs");
    assert("retries"@.len() != "backoff_secs"@.len());
}

/// The word `ordered` stands for `ordered = true`, and a truth value is kept as it is given.
pub proof fn law_order_is_kept(options: JobOptionsView, key: String, ordered: bool)
    ensures
        ({
            let word = with_setting(
                options,
                setting(JobArg::Meta { ident: Some(key), value: MetaValue::Word }),
            );
            let keyed = with_setting(
                options,
                setting(
                    JobArg::Meta {
                        ident: Some(key),
                        value: MetaValue::Value(AttrLit::Bool(ordered)),
                    },
                ),
            );
            let unexpected = Err::<JobOptionsView, ArgError>(ArgError::Unexpected);
            &&& key@ == "ordered"@ && options.ordered is None ==> keyed == Ok::<JobOptionsView, ArgError>(
                JobOptionsView { ordered: Some(ordered), ..options },
            )
            &&& key@ == "ordered"@ && ordered ==> word == keyed
            &&& key@ != "ordered"@ || options.ordered is Some ==> word == unexpected && keyed
                == unexpected
        }),
{
}

/// The prototype is the path that is given in the list. No other list is accepted.
pub proof fn law_prototype_is_kept(options: JobOptionsView, key: String, head: ListHead)
    ensures
        ({
            let list = with_setting(
                options,
                setting(JobArg::Meta { ident: Some(key), value: MetaValue::List(head) }),
            );
            if key@ == "proto"@ && options.proto is None && head is Path {
                list == Ok::<JobOptionsView, ArgError>(JobOptionsView { proto: Some(head->Path_0@), ..options })
            } else {
                list == Err::<JobOptionsView, ArgError>(ArgError::Unexpected)
            }
        }),
{
}

/// Literals of other kinds are not accepted, alone or as a value; alone, nothing but a text is. A
/// path of more than one identifier changes nothing, whatever stands behind it.
pub proof fn law_other_arguments(
    options: JobOptionsView,
    key: String,
    lit: AttrLit,
    value: MetaValue,
)
    ensures
        !(lit is Str) ==> with_setting(options, setting(JobArg::Lit(lit))) == Err::<
            JobOptionsView,
            ArgError,
        >(ArgError::Unexpected),
        with_setting(
            options,
            setting(
                JobArg::Meta { ident: Some(key), value: MetaValue::Value(AttrLit::Other) },
            ),
        ) == Err::<JobOptionsView, ArgError>(ArgError::Unexpected),
        with_setting(options, setting(JobArg::Meta { ident: None, value })) == Ok::<JobOptionsView, ArgError>(options),
{
}

/// The arguments are taken one by one: each is added to what those before it have set, or, where
/// it is not accepted, changes nothing and is reported with its place.
pub proof fn law_arguments_one_by_one(args: Seq<JobArg>, arg: JobArg)
    requires
        args.len() < usize::MAX,
    ensures
        options_of(seq![]) == (JobOptionsView {
            proto: None,
            name: None,
            channel_name: None,
            retries: None,
            backoff_secs: None,
            ordered: None,
        }),
        errors_of(seq![]).len() == 0,
        match with_setting(options_of(args), setting(arg)) {
            Ok(options) => {
                &&& options_of(args.push(arg)) == options
                &&& errors_of(args.push(arg)) == errors_of(args)
            },
            Err(e) => {
                &&& options_of(args.push(arg)) == options_of(args)
                &&& errors_of(args.push(arg)) == errors_of(args).push((args.len() as usize, e))
            },
        },
{
    assert(args.push(arg).drop_last() == args);
}

/// Where all arguments are accepted, each of them has its value among the options.
pub proof fn law_accepted_arguments_are_kept(args: Seq<JobArg>, i: int)
    requires
        errors_of(args).len() == 0,
        0 <= i < args.len(),
    ensures
        ({
            let options = options_of(args);
            match args[i] {
                JobArg::Lit(lit) => lit is Str && options.name == Some(lit->Str_0@),
                JobArg::Meta { ident: None, value } => true,
                JobArg::Meta { ident: Some(key), value } => match value {
                    MetaValue::Word => key@ == "ordered"@ && options.ordered == Some(true),
                    MetaValue::List(head) => {
                        &&& key@ == "proto"@ && head is Path
                        &&& options.proto == Some(head->Path_0@)
                    },
                    MetaValue::Value(AttrLit::Str(text)) => {
                        ||| key@ == "name"@ && options.name == Some(text@)
                        ||| key@ == "channel_name"@ && options.channel_name == Some(text@)
                    },
                    MetaValue::Value(AttrLit::Int(n)) => {
                        ||| key@ == "retries"@ && options.retries is Some && options.retries
                            == parsed_u32(n.digits@)
                        ||| key@ == "backoff_secs"@ && options.backoff_secs == Some(n.digits@)
                    },
                    MetaValue::Value(AttrLit::Float(n)) => key@ == "backoff_secs"@
                        && options.backoff_secs == Some(n.digits@),
                    MetaValue::Value(AttrLit::Bool(b)) => key@ == "ordered"@ && options.ordered
                        == Some(b),
                    MetaValue::Value(AttrLit::Other) => false,
                },
            }
        }),
    decreases args.len(),
{
    let earlier = args.drop_last();
    if i < earlier.len() {
        assert(earlier[i] == args[i]);
        law_accepted_arguments_are_kept(earlier, i);
    }
}

/// There is one call for each option that is set, with the option's value, and no other. The
/// prototype comes first.
pub proof fn law_one_call_for_each_option(chain: Seq<BuilderCall>, options: JobOptionsView)
    requires
        calls_view(chain) == chain_of(options),
    ensures
        forall|i: int|
            0 <= i < chain.len() ==> match #[trigger] chain[i] {
                BuilderCall::SetProto(p) => i == 0 && options.proto == Some(p@),
                BuilderCall::SetChannelName(c) => options.channel_name == Some(c@),
                BuilderCall::SetRetries(n) => options.retries == Some(n),
                BuilderCall::SetRetryBackoff(d) => options.backoff_secs == Some(d@),
                BuilderCall::SetOrdered(b) => options.ordered == Some(b),
            },
        options.proto is Some ==> exists|i: int|
            0 <= i < chain.len() && #[trigger] chain[i] is SetProto,
        options.channel_name is Some ==> exists|i: int|
            0 <= i < chain.len() && #[trigger] chain[i] is SetChannelName,
        options.retries is Some ==> exists|i: int|
            0 <= i < chain.len() && #[trigger] chain[i] is SetRetries,
        options.backoff_secs is Some ==> exists|i: int|
            0 <= i < chain.len() && #[trigger] chain[i] is SetRetryBackoff,
        options.ordered is Some ==> exists|i: int|
            0 <= i < chain.len() && #[trigger] chain[i] is SetOrdered,
        chain.len() == (if options.proto is Some { 1int } else { 0 }) + (if options.channel_name
            is Some { 1int } else { 0 }) + (if options.retries is Some { 1int } else { 0 }) + (
        if options.backoff_secs is Some { 1int } else { 0 }) + (if options.ordered is Some {
            1int
        } else {
            0
        }),
{
    let calls = calls_view(chain);
    assert(calls.len() == chain.len());
    assert forall|i: int| 0 <= i < chain.len() implies (#[trigger] chain[i])@ == calls[i] by {}
    let c1 = and_then_call(seq![], proto_call(options));
    let c2 = and_then_call(c1, channel_name_call(options));
    let c3 = and_then_call(c2, retries_call(options));
    let c4 = and_then_call(c3, backoff_call(options));
    if options.proto is Some {
        assert(calls[0] is SetProto);
        assert(chain[0] is SetProto);
    }
    if options.channel_name is Some {
        assert(calls[c1.len() as int] is SetChannelName);
        assert(chain[c1.len() as int] is SetChannelName);
    }
    if options.retries is Some {
        assert(calls[c2.len() as int] is SetRetries);
        assert(chain[c2.len() as int] is SetRetries);
    }
    if options.backoff_secs is Some {
        assert(calls[c3.len() as int] is SetRetryBackoff);
        assert(chain[c3.len() as int] is SetRetryBackoff);
    }
    if options.ordered is Some {
        assert(calls[c4.len() as int] is SetOrdered);
        assert(chain[c4.len() as int] is SetOrdered);
    }
}

/// The options after one more argument, where nothing was refused so far.
spec fn after_arg_strict(options: Option<JobOptionsView>, arg: JobArg) -> Option<JobOptionsView> {
    match options {
        Some(o) => match with_setting(o, setting(arg)) {
            Ok(next) => Some(next),
            Err(_) => None,
        },
        None => None,
    }
}

spec fn options_of_strict(args: Seq<JobArg>) -> Option<JobOptionsView> {
    args.fold_left(
        Some(no_options()),
        |options: Option<JobOptionsView>, arg: JobArg| after_arg_strict(options, arg),
    )
}

proof fn lemma_strict(args: Seq<JobArg>)
    ensures
        options_of_strict(args) == (if errors_of(args).len() == 0 {
            Some(options_of(args))
        } else {
            None
        }),
    decreases args.len(),
{
    if args.len() > 0 {
        lemma_strict(args.drop_last());
    }
}

/// The order of the arguments is not important: where they are all accepted, they are accepted
/// in every other order, and set the same options.
pub proof fn law_order_is_not_important(args: Seq<JobArg>, others: Seq<JobArg>)
    requires
        args.to_multiset() == others.to_multiset(),
        errors_of(args).len() == 0,
    ensures
        errors_of(others).len() == 0,
        options_of(others) == options_of(args),
{
    let f = |options: Option<JobOptionsView>, arg: JobArg| after_arg_strict(options, arg);
    assert(commutative_foldl(f));
    lemma_fold_left_permutation(args, others, f, Some(no_options()));
    lemma_strict(args);
    lemma_strict(others);
}

/// Each option can be given once only: an argument that asks for the same option as an accepted
/// one is refused.
pub proof fn law_each_option_once(options: JobOptionsView, first: JobArg, second: JobArg)
    requires
        with_setting(options, setting(first)) is Ok,
        match (setting(first), setting(second)) {
            (Setting::Proto(_), Setting::Proto(_)) => true,
            (Setting::Name(_), Setting::Name(_)) => true,
            (Setting::ChannelName(_), Setting::ChannelName(_)) => true,
            (Setting::Retries(_), Setting::Retries(_)) => true,
            (Setting::BackoffSecs(_), Setting::BackoffSecs(_)) => true,
            (Setting::Ordered(_), Setting::Ordered(_)) => true,
            _ => false,
        },
    ensures
        with_setting(after_arg(options, first), setting(second)) == Err::<JobOptionsView, ArgError>(
            ArgError::Unexpected,
        ),
{
}

/// What a call makes of a job, where `proto` is what the prototype makes of it and `seconds` the
/// duration that digits stand for.
pub open spec fn after_call(
    task: TaskView,
    call: CallView,
    proto: spec_fn(TaskView) -> TaskView,
    seconds: spec_fn(Seq<char>) -> Duration,
) -> TaskView {
    match call {
        CallView::SetProto(_) => proto(task),
        CallView::SetChannelName(c) => TaskView { channel_name: c, ..task },
        CallView::SetRetries(n) => TaskView { retries: n as usize, ..task },
        CallView::SetRetryBackoff(d) => TaskView { retry_backoff: seconds(d), ..task },
        CallView::SetOrdered(b) => TaskView { ordered: b, ..task },
    }
}

/// What a chain of calls makes of a job.
pub open spec fn after_chain(
    task: TaskView,
    chain: Seq<CallView>,
    proto: spec_fn(TaskView) -> TaskView,
    seconds: spec_fn(Seq<char>) -> Duration,
) -> TaskView
    decreases chain.len(),
{
    if chain.len() == 0 {
        task
    } else {
        after_call(
            after_chain(task, chain.drop_last(), proto, seconds),
            chain.last(),
            proto,
            seconds,
        )
    }
}

/// A job with the explicit options set.
pub open spec fn with_options(
    task: TaskView,
    options: JobOptionsView,
    seconds: spec_fn(Seq<char>) -> Duration,
) -> TaskView {
    TaskView {
        channel_name: match options.channel_name {
            Some(c) => c,
            None => task.channel_name,
        },
        retries: match options.retries {
            Some(n) => n as usize,
            None => task.retries,
        },
        retry_backoff: match options.backoff_secs {
            Some(d) => seconds(d),
            None => task.retry_backoff,
        },
        ordered: match options.ordered {
            Some(b) => b,
            None => task.ordered,
        },
        ..task
    }
}

proof fn lemma_after_chain_and_call(
    task: TaskView,
    chain: Seq<CallView>,
    call: Option<CallView>,
    proto: spec_fn(TaskView) -> TaskView,
    seconds: spec_fn(Seq<char>) -> Duration,
)
    ensures
        after_chain(task, and_then_call(chain, call), proto, seconds) == (match call {
            Some(c) => after_call(after_chain(task, chain, proto, seconds), c, proto, seconds),
            None => after_chain(task, chain, proto, seconds),
        }),
{
    if let Some(c) = call {
        assert(chain.push(c).drop_last() == chain);
    }
}

/// The prototype is always applied first, so that explicit options override it, whatever it
/// does; what is not set explicitly stays as the prototype left it.
pub proof fn law_explicit_options_override_prototype(
    task: TaskView,
    options: JobOptionsView,
    proto: spec_fn(TaskView) -> TaskView,
    seconds: spec_fn(Seq<char>) -> Duration,
)
    ensures
        after_chain(task, chain_of(options), proto, seconds) == with_options(
            if options.proto is Some {
                proto(task)
            } else {
                task
            },
            options,
            seconds,
        ),
{
    let c0: Seq<CallView> = seq![];
    let c1 = and_then_call(c0, proto_call(options));
    let c2 = and_then_call(c1, channel_name_call(options));
    let c3 = and_then_call(c2, retries_call(options));
    let c4 = and_then_call(c3, backoff_call(options));
    lemma_after_chain_and_call(task, c0, proto_call(options), proto, seconds);
    lemma_after_chain_and_call(task, c1, channel_name_call(options), proto, seconds);
    lemma_after_chain_and_call(task, c2, retries_call(options), proto, seconds);
    lemma_after_chain_and_call(task, c3, backoff_call(options), proto, seconds);
    lemma_after_chain_and_call(task, c4, ordered_call(options), proto, seconds);
}

} // verus!
