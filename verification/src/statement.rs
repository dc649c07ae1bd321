//! The statements that the queue sends to the database, with the values bound to them.
use core::time::Duration;
use vstd::prelude::*;

verus! {

/// Inserts one job.
pub const INSERT: &'static str =
    "SELECT mq_insert(ARRAY[($1, $2, $3, $4, $5, $6, $7, $8, $9, $10, $11)::mq_new_t])";

/// Replaces the payload of a job and extends its retries.
pub const CHECKPOINT: &'static str = "SELECT mq_checkpoint($1, $2, $3, $4, $5)";

/// Deletes one job.
pub const DELETE_ONE: &'static str = "SELECT mq_delete(ARRAY[$1])";

/// Deletes a list of jobs.
pub const DELETE_MANY: &'static str = "SELECT mq_delete($1)";

/// Prevents a job from being retried for some time.
pub const KEEP_ALIVE: &'static str = "SELECT mq_keep_alive(ARRAY[$1], $2)";

/// Fetches up to a given number of jobs.
pub const POLL: &'static str = "SELECT * FROM mq_poll($1, $2)";

/// Fetches a single job.
pub const POLL_ONE: &'static str = "SELECT * FROM mq_poll($1, 1)";

/// A value bound to a parameter of a statement. A `None` is bound as the SQL value `NULL`.
#[derive(Debug, PartialEq)]
pub enum SqlArg<'a> {
    /// A job's identifier: the 128 bits of a UUID.
    Uuid(u128),
    /// A list of identifiers.
    Uuids(Vec<u128>),
    /// An interval.
    Interval(Duration),
    /// An interval that may be absent.
    OptInterval(Option<Duration>),
    /// A 32-bit integer.
    Int(i32),
    /// A text.
    Text(&'a str),
    /// A text that may be absent.
    OptText(Option<&'a str>),
    /// A list of texts that may be absent.
    OptTexts(&'a Option<Vec<String>>),
    /// Bytes that may be absent.
    OptBytes(Option<&'a [u8]>),
    /// A truth value.
    Bool(bool),
}

/// What a [`SqlArg`] stands for.
pub enum ArgView {
    Uuid(u128),
    Uuids(Seq<u128>),
    Interval(Duration),
    OptInterval(Option<Duration>),
    Int(int),
    Text(Seq<char>),
    OptText(Option<Seq<char>>),
    OptTexts(Option<Seq<Seq<char>>>),
    OptBytes(Option<Seq<u8>>),
    Bool(bool),
}

/// The text behind an optional string slice.
pub open spec fn opt_text(t: Option<&str>) -> Option<Seq<char>> {
    match t {
        Some(s) => Some(s@),
        None => None,
    }
}

/// The text behind an optional string.
pub open spec fn opt_string(t: Option<String>) -> Option<Seq<char>> {
    match t {
        Some(s) => Some(s@),
        None => None,
    }
}

/// The bytes behind an optional slice.
pub open spec fn opt_slice(b: Option<&[u8]>) -> Option<Seq<u8>> {
    match b {
        Some(s) => Some(s@),
        None => None,
    }
}

/// The bytes behind an optional vector.
pub open spec fn opt_bytes(b: Option<Vec<u8>>) -> Option<Seq<u8>> {
    match b {
        Some(s) => Some(s@),
        None => None,
    }
}

/// The texts behind a sequence of strings.
pub open spec fn texts(v: Seq<String>) -> Seq<Seq<char>> {
    v.map_values(|s: String| s@)
}

/// The texts behind an optional vector of strings.
pub open spec fn opt_texts(v: Option<Vec<String>>) -> Option<Seq<Seq<char>>> {
    match v {
        Some(s) => Some(texts(s@)),
        None => None,
    }
}

impl<'a> View for SqlArg<'a> {
    type V = ArgView;

    open spec fn view(&self) -> ArgView {
        match *self {
            SqlArg::Uuid(id) => ArgView::Uuid(id),
            SqlArg::Uuids(ids) => ArgView::Uuids(ids@),
            SqlArg::Interval(d) => ArgView::Interval(d),
            SqlArg::OptInterval(d) => ArgView::OptInterval(d),
            SqlArg::Int(n) => ArgView::Int(n as int),
            SqlArg::Text(t) => ArgView::Text(t@),
            SqlArg::OptText(t) => ArgView::OptText(opt_text(t)),
            SqlArg::OptTexts(t) => ArgView::OptTexts(opt_texts(*t)),
            SqlArg::OptBytes(b) => ArgView::OptBytes(opt_slice(b)),
            SqlArg::Bool(b) => ArgView::Bool(b),
        }
    }
}

/// A statement and the values bound to its parameters, in order.
#[derive(Debug, PartialEq)]
pub struct Statement<'a> {
    /// The statement's text.
    pub sql: &'static str,
    /// The values for `$1`, `$2` and so on.
    pub args: Vec<SqlArg<'a>>,
}

impl<'a> Statement<'a> {
    /// Says that this is the given text with the given values bound to it.
    pub open spec fn is(self, sql: &str, args: Seq<ArgView>) -> bool {
        &&& self.sql@ == sql@
        &&& self.args@.len() == args.len()
        &&& forall|i: int| 0 <= i < args.len() ==> (#[trigger] self.args@[i])@ == args[i]
    }
}

/// The 32-bit two's complement integer that the low 32 bits of `n` stand for.
pub open spec fn low_i32(n: int) -> int {
    let low = n % 0x1_0000_0000;
    if low < 0x8000_0000 {
        low
    } else {
        low - 0x1_0000_0000
    }
}

/// Narrows a count to the database's integer type by keeping its low 32 bits.
pub fn narrow(n: usize) -> (r: i32)
    ensures
        r == low_i32(n as int),
{
    let low: u64 = n as u64 % 0x1_0000_0000;
    if low < 0x8000_0000 {
        low as i32
    } else {
        (low as i64 - 0x1_0000_0000) as i32
    }
}

/// A text, a list of bytes and a list of texts stand for what they hold, and an absent one for
/// nothing, whatever it holds.
pub proof fn law_optional_values(
    slice: &str,
    string: String,
    bytes: &[u8],
    vec: Vec<u8>,
    list: Vec<String>,
)
    ensures
        opt_text(Some(slice)) == Some(slice@),
        opt_text(None) is None,
        opt_string(Some(string)) == Some(string@),
        opt_string(None) is None,
        opt_slice(Some(bytes)) == Some(bytes@),
        opt_slice(None) is None,
        opt_bytes(Some(vec)) == Some(vec@),
        opt_bytes(None) is None,
        opt_texts(None) is None,
        opt_texts(Some(list)) is Some,
        opt_texts(Some(list))->0.len() == list@.len(),
        forall|i: int|
            0 <= i < list@.len() ==> #[trigger] opt_texts(Some(list))->0[i] == list@[i]@,
{
}

/// The value bound to a parameter can be told from what it stands for.
pub proof fn law_bound_values(arg: SqlArg<'_>)
    ensures
        match arg {
            SqlArg::Uuid(id) => arg@ == ArgView::Uuid(id),
            SqlArg::Uuids(ids) => arg@ == ArgView::Uuids(ids@),
            SqlArg::Interval(d) => arg@ == ArgView::Interval(d),
            SqlArg::OptInterval(d) => arg@ == ArgView::OptInterval(d),
            SqlArg::Int(n) => arg@ == ArgView::Int(n as int),
            SqlArg::Text(t) => arg@ == ArgView::Text(t@),
            SqlArg::OptText(Some(t)) => arg@ == ArgView::OptText(Some(t@)),
            SqlArg::OptText(None) => arg@ == ArgView::OptText(None),
            SqlArg::OptTexts(t) => arg@ is OptTexts && (arg@->OptTexts_0 is Some <==> t is Some)
                && (t matches Some(v) ==> arg@->OptTexts_0->0.len() == v@.len() && forall|i: int|
                0 <= i < v@.len() ==> #[trigger] arg@->OptTexts_0->0[i] == v@[i]@),
            SqlArg::OptBytes(Some(b)) => arg@ == ArgView::OptBytes(Some(b@)),
            SqlArg::OptBytes(None) => arg@ == ArgView::OptBytes(None),
            SqlArg::Bool(b) => arg@ == ArgView::Bool(b),
        },
{
}

/// A statement with given values has exactly those, in their places, and the given text.
pub proof fn law_values_in_their_places(statement: Statement<'_>, sql: &str, args: Seq<ArgView>)
    requires
        statement.is(sql, args),
    ensures
        statement.sql@ == sql@,
        statement.args@.len() == args.len(),
        forall|i: int| 0 <= i < args.len() ==> (#[trigger] statement.args@[i])@ == args[i],
{
}

/// A count that is sent differs from the given one by a multiple of 2^32 only, and fits.
pub proof fn law_narrow_keeps_the_low_bits(n: nat)
    ensures
        i32::MIN <= low_i32(n as int) <= i32::MAX,
        (n - low_i32(n as int)) % 0x1_0000_0000 == 0,
{
}

/// A count that fits the database's integer type is sent as it is.
pub proof fn law_narrow_keeps_small_counts(n: nat)
    requires
        n <= i32::MAX,
    ensures
        low_i32(n as int) == n,
{
}

} // verus!
