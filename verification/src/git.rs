//! The git metadata producer: its data shapes, its fallback values, and the
//! decisions it takes around a repository backend.
//!
//! Reading a repository is I/O and lives outside this crate; what stands
//! here is everything that can be decided from plain values: the fallback
//! provider, the dispatch over a loaded-or-failed backend, the parsing of
//! command-line output, and the plugin's item assembly.

use vstd::prelude::*;

use crate::plugin_items::SmolVergenPluginItems;
use crate::scalar::{ScalarShape, ScalarValue};
use crate::serialize_to_env::StructuredValue;
use crate::timestamp::Timestamp;

verus! {

/// A commit author: a name and an email address.
#[derive(Debug)]
pub struct GitAuthor {
    pub name: String,
    pub email: String,
}

/// Whether `v` is the two-field record `{name, email}` with the given
/// texts.
pub open spec fn is_author_record(v: StructuredValue, name: Seq<char>, email: Seq<char>) -> bool {
    v matches StructuredValue::Record(f) && f@.len() == 2 && f@[0].0@ == "name"@ && (f@[0].1 matches
        StructuredValue::Scalar(ScalarValue::Text(t1))
        && t1@ == name) && f@[1].0@ == "email"@ && (f@[1].1 matches StructuredValue::Scalar(
        ScalarValue::Text(t2),
    ) && t2@ == email)
}

impl GitAuthor {
    /// An author from its parts.
    pub fn new(name: String, email: String) -> (r: GitAuthor)
        ensures
            r.name == name,
            r.email == email,
    {
        GitAuthor { name, email }
    }

    /// The record shape handed to the flattening engine: the fields `name`
    /// and `email`, in that order.
    pub fn to_structured(&self) -> (r: StructuredValue)
        ensures
            is_author_record(r, self.name@, self.email@),
            r.field_encodable(),
    {
        let mut fields: Vec<(String, StructuredValue)> = Vec::new();
        fields.push(
            (String::from_str("name"), StructuredValue::Scalar(ScalarValue::Text(self.name.clone()))),
        );
        fields.push(
            (
                String::from_str("email"),
                StructuredValue::Scalar(ScalarValue::Text(self.email.clone())),
            ),
        );
        StructuredValue::Record(fields)
    }
}

/// A failure of the command-line repository backend.
#[derive(Debug, Clone, Copy, PartialEq, Eq, Structural)]
pub enum CLIError {
    /// The git executable could not be found or run.
    GitCommandNotFound,
    /// Command output was not valid UTF-8.
    UTF8Error,
}

impl CLIError {
    /// A short description of the failure, for diagnostics.
    pub fn message(&self) -> (r: String)
        ensures
            *self is GitCommandNotFound ==> r@ == "Git command not found"@,
            *self is UTF8Error ==> r@ == "UTF8 error"@,
    {
        match self {
            CLIError::GitCommandNotFound => String::from_str("Git command not found"),
            CLIError::UTF8Error => String::from_str("UTF8 error"),
        }
    }
}

/// The fallback provider, used when no repository can be read: every query
/// answers with a placeholder.
#[derive(Debug, Clone, Copy, Default)]
pub struct FailedAccess;

/// The fallback branch name.
pub fn branch() -> (r: Option<String>)
    ensures
        r matches Option::Some(s) && s@ == "Unknown"@,
{
    Option::Some(String::from_str("Unknown"))
}

/// The fallback commit id.
pub fn commit() -> (r: Option<String>)
    ensures
        r matches Option::Some(s) && s@ == "Unknown"@,
{
    Option::Some(String::from_str("Unknown"))
}

/// The fallback shortened commit id.
pub fn commit_short() -> (r: Option<String>)
    ensures
        r matches Option::Some(s) && s@ == "Unknown"@,
{
    Option::Some(String::from_str("Unknown"))
}

/// The fallback commit author.
pub fn commit_author() -> (r: Option<GitAuthor>)
    ensures
        r matches Option::Some(a) && a.name@ == "Unknown"@ && a.email@ == "Unknown"@,
{
    Option::Some(GitAuthor::new(String::from_str("Unknown"), String::from_str("Unknown")))
}

/// The fallback commit message.
pub fn commit_message() -> (r: Option<String>)
    ensures
        r matches Option::Some(s) && s@ == "Unknown"@,
{
    Option::Some(String::from_str("Unknown"))
}

/// The fallback commit timestamp: the Unix epoch.
pub fn commit_timestamp() -> (r: Option<Timestamp>)
    ensures
        r == Option::Some(epoch_timestamp()),
{
    Option::Some(Timestamp::unix_epoch())
}

/// The Unix epoch as a timestamp value.
pub open spec fn epoch_timestamp() -> Timestamp {
    Timestamp { year: 1970, month: 1, day: 1, hour: 0, minute: 0, second: 0, offset_minutes: 0 }
}

impl FailedAccess {
    /// The fallback provider loads unconditionally.
    pub fn load() -> (r: FailedAccess)
        ensures
            true,
    {
        FailedAccess
    }

    /// The fallback branch name.
    pub fn get_branch(&self) -> (r: Option<String>)
        ensures
            r matches Option::Some(s) && s@ == "Unknown"@,
    {
        branch()
    }

    /// The fallback commit id.
    pub fn get_commit(&self) -> (r: Option<String>)
        ensures
            r matches Option::Some(s) && s@ == "Unknown"@,
    {
        Option::Some(String::from_str("Unknown"))
    }

    /// The fallback shortened commit id.
    pub fn get_commit_short(&self) -> (r: Option<String>)
        ensures
            r matches Option::Some(s) && s@ == "Unknown"@,
    {
        commit_short()
    }

    /// The fallback commit author.
    pub fn get_commit_author(&self) -> (r: Option<GitAuthor>)
        ensures
            r matches Option::Some(a) && a.name@ == "Unknown"@ && a.email@ == "Unknown"@,
    {
        commit_author()
    }

    /// The fallback commit message.
    pub fn get_commit_message(&self) -> (r: Option<String>)
        ensures
            r matches Option::Some(s) && s@ == "Unknown"@,
    {
        commit_message()
    }

    /// The fallback commit timestamp.
    pub fn get_commit_timestamp(&self) -> (r: Option<Timestamp>)
        ensures
            r == Option::Some(epoch_timestamp()),
    {
        commit_timestamp()
    }
}

/// What one reading of a repository backend reported: per query, a value,
/// nothing, or a failure.
pub struct GitFacts {
    pub branch: Result<Option<String>, CLIError>,
    pub commit: Result<Option<String>, CLIError>,
    pub commit_short: Result<Option<String>, CLIError>,
    pub commit_author: Result<Option<GitAuthor>, CLIError>,
    pub commit_message: Result<Option<String>, CLIError>,
    pub commit_timestamp: Result<Option<Timestamp>, CLIError>,
}

/// The view of an optional string.
pub open spec fn view_opt_str(o: Option<String>) -> Option<Seq<char>> {
    match o {
        Option::Some(s) => Option::Some(s@),
        Option::None => Option::None,
    }
}

/// The view of a string query result.
pub open spec fn view_res_str(r: Result<Option<String>, CLIError>) -> Result<
    Option<Seq<char>>,
    CLIError,
> {
    match r {
        Result::Ok(o) => Result::Ok(view_opt_str(o)),
        Result::Err(e) => Result::Err(e),
    }
}

/// The view of an author query result, as name and email texts.
pub open spec fn view_res_author(r: Result<Option<GitAuthor>, CLIError>) -> Result<
    Option<(Seq<char>, Seq<char>)>,
    CLIError,
> {
    match r {
        Result::Ok(o) => Result::Ok(
            match o {
                Option::Some(a) => Option::Some((a.name@, a.email@)),
                Option::None => Option::None,
            },
        ),
        Result::Err(e) => Result::Err(e),
    }
}

/// Either the facts a real backend reported, or the fallback provider.
pub enum GitAccessOrFailed {
    Success(GitFacts),
    Failed(FailedAccess),
}

impl GitAccessOrFailed {
    /// The branch query outcome.
    pub open spec fn branch_view(self) -> Result<Option<Seq<char>>, CLIError> {
        match self {
            GitAccessOrFailed::Success(f) => view_res_str(f.branch),
            GitAccessOrFailed::Failed(_) => Result::Ok(Option::Some("Unknown"@)),
        }
    }

    /// The commit query outcome.
    pub open spec fn commit_view(self) -> Result<Option<Seq<char>>, CLIError> {
        match self {
            GitAccessOrFailed::Success(f) => view_res_str(f.commit),
            GitAccessOrFailed::Failed(_) => Result::Ok(Option::Some("Unknown"@)),
        }
    }

    /// The shortened-commit query outcome.
    pub open spec fn commit_short_view(self) -> Result<Option<Seq<char>>, CLIError> {
        match self {
            GitAccessOrFailed::Success(f) => view_res_str(f.commit_short),
            GitAccessOrFailed::Failed(_) => Result::Ok(Option::Some("Unknown"@)),
        }
    }

    /// The author query outcome.
    pub open spec fn commit_author_view(self) -> Result<Option<(Seq<char>, Seq<char>)>, CLIError> {
        match self {
            GitAccessOrFailed::Success(f) => view_res_author(f.commit_author),
            GitAccessOrFailed::Failed(_) => Result::Ok(Option::Some(("Unknown"@, "Unknown"@))),
        }
    }

    /// The message query outcome.
    pub open spec fn commit_message_view(self) -> Result<Option<Seq<char>>, CLIError> {
        match self {
            GitAccessOrFailed::Success(f) => view_res_str(f.commit_message),
            GitAccessOrFailed::Failed(_) => Result::Ok(Option::Some("Unknown"@)),
        }
    }

    /// The timestamp query outcome.
    pub open spec fn commit_timestamp_view(self) -> Result<Option<Timestamp>, CLIError> {
        match self {
            GitAccessOrFailed::Success(f) => f.commit_timestamp,
            GitAccessOrFailed::Failed(_) => Result::Ok(Option::Some(epoch_timestamp())),
        }
    }

    /// The branch, from the backend or the fallback.
    pub fn get_branch(&self) -> (r: Result<Option<String>, CLIError>)
        ensures
            view_res_str(r) == self.branch_view(),
    {
        match self {
            GitAccessOrFailed::Success(f) => clone_res_str(&f.branch),
            GitAccessOrFailed::Failed(a) => Result::Ok(a.get_branch()),
        }
    }

    /// The commit id, from the backend or the fallback.
    pub fn get_commit(&self) -> (r: Result<Option<String>, CLIError>)
        ensures
            view_res_str(r) == self.commit_view(),
    {
        match self {
            GitAccessOrFailed::Success(f) => clone_res_str(&f.commit),
            GitAccessOrFailed::Failed(a) => Result::Ok(a.get_commit()),
        }
    }

    /// The shortened commit id, from the backend or the fallback.
    pub fn get_commit_short(&self) -> (r: Result<Option<String>, CLIError>)
        ensures
            view_res_str(r) == self.commit_short_view(),
    {
        match self {
            GitAccessOrFailed::Success(f) => clone_res_str(&f.commit_short),
            GitAccessOrFailed::Failed(a) => Result::Ok(a.get_commit_short()),
        }
    }

    /// The commit author, from the backend or the fallback.
    pub fn get_commit_author(&self) -> (r: Result<Option<GitAuthor>, CLIError>)
        ensures
            view_res_author(r) == self.commit_author_view(),
    {
        match self {
            GitAccessOrFailed::Success(f) => match &f.commit_author {
                Result::Ok(o) => match o {
                    Option::Some(a) => Result::Ok(Option::Some(a.clone_author())),
                    Option::None => Result::Ok(Option::None),
                },
                Result::Err(e) => Result::Err(*e),
            },
            GitAccessOrFailed::Failed(a) => Result::Ok(a.get_commit_author()),
        }
    }

    /// The commit message, from the backend or the fallback.
    pub fn get_commit_message(&self) -> (r: Result<Option<String>, CLIError>)
        ensures
            view_res_str(r) == self.commit_message_view(),
    {
        match self {
            GitAccessOrFailed::Success(f) => clone_res_str(&f.commit_message),
            GitAccessOrFailed::Failed(a) => Result::Ok(a.get_commit_message()),
        }
    }

    /// The commit timestamp, from the backend or the fallback.
    pub fn get_commit_timestamp(&self) -> (r: Result<Option<Timestamp>, CLIError>)
        ensures
            r == self.commit_timestamp_view(),
    {
        match self {
            GitAccessOrFailed::Success(f) => match &f.commit_timestamp {
                Result::Ok(o) => match o {
                    Option::Some(t) => Result::Ok(Option::Some(*t)),
                    Option::None => Result::Ok(Option::None),
                },
                Result::Err(e) => Result::Err(*e),
            },
            GitAccessOrFailed::Failed(a) => Result::Ok(a.get_commit_timestamp()),
        }
    }
}

impl GitAuthor {
    /// A field-for-field copy.
    pub fn clone_author(&self) -> (r: GitAuthor)
        ensures
            r.name@ == self.name@,
            r.email@ == self.email@,
    {
        GitAuthor { name: self.name.clone(), email: self.email.clone() }
    }
}

/// A copy of a string query result.
fn clone_res_str(r: &Result<Option<String>, CLIError>) -> (out: Result<Option<String>, CLIError>)
    ensures
        view_res_str(out) == view_res_str(*r),
{
    match r {
        Result::Ok(o) => match o {
            Option::Some(s) => Result::Ok(Option::Some(s.clone())),
            Option::None => Result::Ok(Option::None),
        },
        Result::Err(e) => Result::Err(*e),
    }
}

/// Simplifies a query result to an optional value, turning both an absent
/// value and a failure into the fallback.
pub open spec fn simplify_spec<T>(r: Result<Option<T>, CLIError>, fallback: Option<T>) -> Option<
    T,
> {
    match r {
        Result::Ok(o) => match o {
            Option::Some(v) => Option::Some(v),
            Option::None => fallback,
        },
        Result::Err(_) => fallback,
    }
}

/// Simplifies a query result to an optional value, falling back on an
/// absent value or a failure.
pub fn simplify<T>(r: Result<Option<T>, CLIError>, fallback: Option<T>) -> (out: Option<T>)
    ensures
        out == simplify_spec(r, fallback),
{
    match r {
        Result::Ok(o) => match o {
            Option::Some(v) => Option::Some(v),
            Option::None => fallback,
        },
        Result::Err(_) => fallback,
    }
}

impl GitFacts {
    /// Every timestamp the backend reported is representable.
    pub open spec fn wf(self) -> bool {
        match self.commit_timestamp {
            Result::Ok(o) => match o {
                Option::Some(t) => t.wf(),
                Option::None => true,
            },
            Result::Err(_) => true,
        }
    }
}

impl GitAccessOrFailed {
    /// Every timestamp the access can hand out is representable.
    pub open spec fn wf(self) -> bool {
        match self {
            GitAccessOrFailed::Success(f) => f.wf(),
            GitAccessOrFailed::Failed(_) => true,
        }
    }
}

/// The text exported for a string query in lenient mode: the reported
/// value, or the placeholder on an absent value or a failure.
pub open spec fn lenient_text(r: Result<Option<Seq<char>>, CLIError>) -> Seq<char> {
    match r {
        Result::Ok(o) => match o {
            Option::Some(s) => s,
            Option::None => "Unknown"@,
        },
        Result::Err(_) => "Unknown"@,
    }
}

/// The timestamp exported in lenient mode: the reported value, or the
/// epoch on an absent value or a failure.
pub open spec fn lenient_ts(r: Result<Option<Timestamp>, CLIError>) -> Timestamp {
    match r {
        Result::Ok(o) => match o {
            Option::Some(t) => t,
            Option::None => epoch_timestamp(),
        },
        Result::Err(_) => epoch_timestamp(),
    }
}

/// The author exported in lenient mode, as name and email texts.
pub open spec fn lenient_author(r: Result<Option<(Seq<char>, Seq<char>)>, CLIError>) -> (
    Seq<char>,
    Seq<char>,
) {
    match r {
        Result::Ok(o) => match o {
            Option::Some(p) => p,
            Option::None => ("Unknown"@, "Unknown"@),
        },
        Result::Err(_) => ("Unknown"@, "Unknown"@),
    }
}

/// The five simple items the plugin contributes in lenient mode, in order.
pub open spec fn lenient_simple_items(a: GitAccessOrFailed) -> Seq<(Seq<char>, ScalarShape)> {
    seq![
        ("BRANCH"@, ScalarShape::Text(lenient_text(a.branch_view()))),
        ("COMMIT"@, ScalarShape::Text(lenient_text(a.commit_view()))),
        ("COMMIT_SHORT"@, ScalarShape::Text(lenient_text(a.commit_short_view()))),
        ("COMMIT_MESSAGE"@, ScalarShape::Text(lenient_text(a.commit_message_view()))),
        ("COMMIT_TIMESTAMP"@, ScalarShape::Timestamp(lenient_ts(a.commit_timestamp_view()))),
    ]
}

/// The value of a string query that did not fail.
pub open spec fn ok_str(r: Result<Option<Seq<char>>, CLIError>) -> Option<Seq<char>> {
    match r {
        Result::Ok(o) => o,
        Result::Err(_) => Option::None,
    }
}

/// The value of a timestamp query that did not fail.
pub open spec fn ok_ts(r: Result<Option<Timestamp>, CLIError>) -> Option<Timestamp> {
    match r {
        Result::Ok(o) => o,
        Result::Err(_) => Option::None,
    }
}

/// The value of an author query that did not fail.
pub open spec fn ok_author(r: Result<Option<(Seq<char>, Seq<char>)>, CLIError>) -> Option<
    (Seq<char>, Seq<char>),
> {
    match r {
        Result::Ok(o) => o,
        Result::Err(_) => Option::None,
    }
}

/// The failure of one query, if it failed.
pub open spec fn err_opt<T>(r: Result<T, CLIError>) -> Option<CLIError> {
    match r {
        Result::Ok(_) => Option::None,
        Result::Err(e) => Option::Some(e),
    }
}

/// The first failure among the six queries, in query order.
#[verifier::opaque]
pub open spec fn first_query_err(a: GitAccessOrFailed) -> Option<CLIError> {
    match a.branch_view() {
        Result::Err(e) => Option::Some(e),
        Result::Ok(_) => match a.commit_view() {
            Result::Err(e) => Option::Some(e),
            Result::Ok(_) => match a.commit_short_view() {
                Result::Err(e) => Option::Some(e),
                Result::Ok(_) => match a.commit_author_view() {
                    Result::Err(e) => Option::Some(e),
                    Result::Ok(_) => match a.commit_message_view() {
                        Result::Err(e) => Option::Some(e),
                        Result::Ok(_) => match a.commit_timestamp_view() {
                            Result::Err(e) => Option::Some(e),
                            Result::Ok(_) => Option::None,
                        },
                    },
                },
            },
        },
    }
}

/// Zero or one text entries, depending on presence.
pub open spec fn opt_text_entry(name: Seq<char>, o: Option<Seq<char>>) -> Seq<
    (Seq<char>, ScalarShape),
> {
    match o {
        Option::Some(s) => seq![(name, ScalarShape::Text(s))],
        Option::None => Seq::empty(),
    }
}

/// Zero or one timestamp entries, depending on presence.
pub open spec fn opt_ts_entry(name: Seq<char>, o: Option<Timestamp>) -> Seq<
    (Seq<char>, ScalarShape),
> {
    match o {
        Option::Some(t) => seq![(name, ScalarShape::Timestamp(t))],
        Option::None => Seq::empty(),
    }
}

/// The simple items the plugin contributes in strict mode when no query
/// failed: only the present values, in order.
pub open spec fn strict_simple_items(a: GitAccessOrFailed) -> Seq<(Seq<char>, ScalarShape)> {
    opt_text_entry("BRANCH"@, ok_str(a.branch_view())) + opt_text_entry(
        "COMMIT"@,
        ok_str(a.commit_view()),
    ) + opt_text_entry("COMMIT_SHORT"@, ok_str(a.commit_short_view())) + opt_text_entry(
        "COMMIT_MESSAGE"@,
        ok_str(a.commit_message_view()),
    ) + opt_ts_entry("COMMIT_TIMESTAMP"@, ok_ts(a.commit_timestamp_view()))
}

/// The first position at or after `i` where the author separator `" <"`
/// begins.
pub open spec fn first_sep(s: Seq<char>, i: int) -> Option<int>
    decreases s.len() - i,
{
    if i < 0 || i + 1 >= s.len() {
        Option::None
    } else if s[i] == ' ' && s[i + 1] == '<' {
        Option::Some(i)
    } else {
        first_sep(s, i + 1)
    }
}

/// The text with every trailing repetition of `">\n"` removed.
pub open spec fn strip_author_tail(s: Seq<char>) -> Seq<char>
    decreases s.len(),
{
    if s.len() >= 2 && s[s.len() - 2] == '>' && s[s.len() - 1] == '\n' {
        strip_author_tail(s.take(s.len() - 2))
    } else {
        s
    }
}

/// What parsing an author line yields: the name before the first `" <"`,
/// and the rest with every trailing `">\n"` removed as the email; nothing
/// when no separator occurs.
pub open spec fn author_split(s: Seq<char>) -> Option<(Seq<char>, Seq<char>)> {
    match first_sep(s, 0) {
        Option::None => Option::None,
        Option::Some(j) => Option::Some((s.take(j), strip_author_tail(s.skip(j + 2)))),
    }
}

/// Parses one `Name <email>` line of command output into an author.
pub fn parse_author(line: &str) -> (r: Option<GitAuthor>)
    ensures
        match author_split(line@) {
            Option::Some(p) => r matches Option::Some(a) && a.name@ == p.0 && a.email@ == p.1,
            Option::None => r is None,
        },
{
    let n = line.unicode_len();
    let mut j: usize = 0;
    while n - j > 1
        invariant
            j <= n,
            n == line@.len(),
            first_sep(line@, 0) == first_sep(line@, j as int),
        decreases n - j,
    {
        let c0 = line.get_char(j) as u32;
        let c1 = line.get_char(j + 1) as u32;
        if c0 == 32 && c1 == 60 {
            let name = line.substring_char(0, j).to_owned();
            let mut e = n;
            proof {
                assert(line@.skip(j + 2) =~= line@.subrange(j + 2, n as int));
            }
            while e - j >= 4 && line.get_char(e - 2) as u32 == 62 && line.get_char(e - 1) as u32
                == 10
                invariant
                    j + 2 <= e <= n,
                    n == line@.len(),
                    strip_author_tail(line@.skip(j + 2)) == strip_author_tail(
                        line@.subrange(j + 2, e as int),
                    ),
                decreases e,
            {
                proof {
                    assert(line@.subrange(j + 2, e as int).take(e - 2 - (j + 2)) =~= line@.subrange(
                        j + 2,
                        e - 2,
                    ));
                }
                e = e - 2;
            }
            let email = line.substring_char(j + 2, e).to_owned();
            return Option::Some(GitAuthor::new(name, email));
        }
        j = j + 1;
    }
    Option::None
}

/// The text with every trailing newline removed.
pub open spec fn strip_newlines(s: Seq<char>) -> Seq<char>
    decreases s.len(),
{
    if s.len() >= 1 && s[s.len() - 1] == '\n' {
        strip_newlines(s.take(s.len() - 1))
    } else {
        s
    }
}

/// Removes every trailing newline from one line of command output.
pub fn trim_trailing_newlines(line: &str) -> (r: String)
    ensures
        r@ == strip_newlines(line@),
{
    let n = line.unicode_len();
    let mut e = n;
    proof {
        assert(line@.subrange(0, n as int) =~= line@);
    }
    while e >= 1 && line.get_char(e - 1) as u32 == 10
        invariant
            e <= n,
            n == line@.len(),
            strip_newlines(line@) == strip_newlines(line@.subrange(0, e as int)),
        decreases e,
    {
        proof {
            assert(line@.subrange(0, e as int).take(e - 1) =~= line@.subrange(0, e - 1));
        }
        e = e - 1;
    }
    line.substring_char(0, e).to_owned()
}

/// The simple items already added when the first failing query aborts the
/// strict run: the present values of the queries before it, in order; all
/// six when none fails.
#[verifier::opaque]
pub open spec fn strict_items_before_err(a: GitAccessOrFailed) -> Seq<(Seq<char>, ScalarShape)> {
    match a.branch_view() {
        Result::Err(_) => Seq::<(Seq<char>, ScalarShape)>::empty(),
        Result::Ok(b) => opt_text_entry("BRANCH"@, b) + (match a.commit_view() {
            Result::Err(_) => Seq::<(Seq<char>, ScalarShape)>::empty(),
            Result::Ok(c) => opt_text_entry("COMMIT"@, c) + (match a.commit_short_view() {
                Result::Err(_) => Seq::<(Seq<char>, ScalarShape)>::empty(),
                Result::Ok(cs) => opt_text_entry("COMMIT_SHORT"@, cs) + (match a.commit_author_view() {
                    Result::Err(_) => Seq::<(Seq<char>, ScalarShape)>::empty(),
                    Result::Ok(_) => (match a.commit_message_view() {
                        Result::Err(_) => Seq::<(Seq<char>, ScalarShape)>::empty(),
                        Result::Ok(m) => opt_text_entry("COMMIT_MESSAGE"@, m) + (match a.commit_timestamp_view() {
                            Result::Err(_) => Seq::<(Seq<char>, ScalarShape)>::empty(),
                            Result::Ok(t) => opt_ts_entry("COMMIT_TIMESTAMP"@, t),
                        }),
                    }),
                }),
            }),
        }),
    }
}

/// The author the strict run has added: present exactly when the queries
/// up to and including the author one succeeded and an author was
/// reported.
#[verifier::opaque]
pub open spec fn strict_author_added(a: GitAccessOrFailed) -> Option<(Seq<char>, Seq<char>)> {
    match a.branch_view() {
        Result::Err(_) => Option::None,
        Result::Ok(_) => match a.commit_view() {
            Result::Err(_) => Option::None,
            Result::Ok(_) => match a.commit_short_view() {
                Result::Err(_) => Option::None,
                Result::Ok(_) => ok_author(a.commit_author_view()),
            },
        },
    }
}

/// Whether the complex-item list grew by exactly one `COMMIT_AUTHOR`
/// record with the given texts when one is given, and stayed unchanged
/// otherwise.
pub open spec fn author_complex_added(
    before: Seq<(String, StructuredValue)>,
    after: Seq<(String, StructuredValue)>,
    p: Option<(Seq<char>, Seq<char>)>,
) -> bool {
    match p {
        Option::Some(q) => after.len() == before.len() + 1 && (forall|j: int|
            0 <= j < before.len() ==> after[j] == before[j]) && after.last().0@ == "COMMIT_AUTHOR"@
            && is_author_record(after.last().1, q.0, q.1),
        Option::None => after == before,
    }
}

/// With the branch query failed, the strict run has added nothing.
proof fn lemma_strict_stage_branch(a: GitAccessOrFailed)
    requires
        a.branch_view() is Err,
    ensures
        strict_items_before_err(a) == Seq::<(Seq<char>, ScalarShape)>::empty(),
        strict_author_added(a) is None,
        first_query_err(a) == err_opt(a.branch_view()),
{
    reveal(strict_items_before_err);
    reveal(strict_author_added);
    reveal(first_query_err);
}

/// With the commit query the first to fail, only the branch entry stands.
proof fn lemma_strict_stage_commit(a: GitAccessOrFailed)
    requires
        a.branch_view() is Ok,
        a.commit_view() is Err,
    ensures
        strict_items_before_err(a) == opt_text_entry("BRANCH"@, ok_str(a.branch_view())),
        strict_author_added(a) is None,
        first_query_err(a) == err_opt(a.commit_view()),
{
    reveal(strict_items_before_err);
    reveal(strict_author_added);
    reveal(first_query_err);
    assert(strict_items_before_err(a) =~= opt_text_entry("BRANCH"@, ok_str(a.branch_view())));
}

/// With the shortened-commit query the first to fail, the branch and
/// commit entries stand.
proof fn lemma_strict_stage_short(a: GitAccessOrFailed)
    requires
        a.branch_view() is Ok,
        a.commit_view() is Ok,
        a.commit_short_view() is Err,
    ensures
        strict_items_before_err(a) == opt_text_entry("BRANCH"@, ok_str(a.branch_view()))
            + opt_text_entry("COMMIT"@, ok_str(a.commit_view())),
        strict_author_added(a) is None,
        first_query_err(a) == err_opt(a.commit_short_view()),
{
    reveal(strict_items_before_err);
    reveal(strict_author_added);
    reveal(first_query_err);
    assert(strict_items_before_err(a) =~= opt_text_entry("BRANCH"@, ok_str(a.branch_view()))
        + opt_text_entry("COMMIT"@, ok_str(a.commit_view())));
}

/// With the author query the first to fail, the three id entries stand and
/// no author was added.
proof fn lemma_strict_stage_author(a: GitAccessOrFailed)
    requires
        a.branch_view() is Ok,
        a.commit_view() is Ok,
        a.commit_short_view() is Ok,
        a.commit_author_view() is Err,
    ensures
        strict_items_before_err(a) == opt_text_entry("BRANCH"@, ok_str(a.branch_view()))
            + opt_text_entry("COMMIT"@, ok_str(a.commit_view())) + opt_text_entry(
            "COMMIT_SHORT"@,
            ok_str(a.commit_short_view()),
        ),
        strict_author_added(a) is None,
        first_query_err(a) == err_opt(a.commit_author_view()),
{
    reveal(strict_items_before_err);
    reveal(strict_author_added);
    reveal(first_query_err);
    assert(strict_items_before_err(a) =~= opt_text_entry("BRANCH"@, ok_str(a.branch_view()))
        + opt_text_entry("COMMIT"@, ok_str(a.commit_view())) + opt_text_entry(
        "COMMIT_SHORT"@,
        ok_str(a.commit_short_view()),
    ));
}

/// With the message query the first to fail, the three id entries stand
/// and the author was already handled.
proof fn lemma_strict_stage_message(a: GitAccessOrFailed)
    requires
        a.branch_view() is Ok,
        a.commit_view() is Ok,
        a.commit_short_view() is Ok,
        a.commit_author_view() is Ok,
        a.commit_message_view() is Err,
    ensures
        strict_items_before_err(a) == opt_text_entry("BRANCH"@, ok_str(a.branch_view()))
            + opt_text_entry("COMMIT"@, ok_str(a.commit_view())) + opt_text_entry(
            "COMMIT_SHORT"@,
            ok_str(a.commit_short_view()),
        ),
        strict_author_added(a) == ok_author(a.commit_author_view()),
        first_query_err(a) == err_opt(a.commit_message_view()),
{
    reveal(strict_items_before_err);
    reveal(strict_author_added);
    reveal(first_query_err);
    assert(strict_items_before_err(a) =~= opt_text_entry("BRANCH"@, ok_str(a.branch_view()))
        + opt_text_entry("COMMIT"@, ok_str(a.commit_view())) + opt_text_entry(
        "COMMIT_SHORT"@,
        ok_str(a.commit_short_view()),
    ));
}

/// With the timestamp query the first to fail, everything but the
/// timestamp entry stands.
proof fn lemma_strict_stage_timestamp(a: GitAccessOrFailed)
    requires
        a.branch_view() is Ok,
        a.commit_view() is Ok,
        a.commit_short_view() is Ok,
        a.commit_author_view() is Ok,
        a.commit_message_view() is Ok,
        a.commit_timestamp_view() is Err,
    ensures
        strict_items_before_err(a) == opt_text_entry("BRANCH"@, ok_str(a.branch_view()))
            + opt_text_entry("COMMIT"@, ok_str(a.commit_view())) + opt_text_entry(
            "COMMIT_SHORT"@,
            ok_str(a.commit_short_view()),
        ) + opt_text_entry("COMMIT_MESSAGE"@, ok_str(a.commit_message_view())),
        strict_author_added(a) == ok_author(a.commit_author_view()),
        first_query_err(a) == err_opt(a.commit_timestamp_view()),
{
    reveal(strict_items_before_err);
    reveal(strict_author_added);
    reveal(first_query_err);
    assert(strict_items_before_err(a) =~= opt_text_entry("BRANCH"@, ok_str(a.branch_view()))
        + opt_text_entry("COMMIT"@, ok_str(a.commit_view())) + opt_text_entry(
        "COMMIT_SHORT"@,
        ok_str(a.commit_short_view()),
    ) + opt_text_entry("COMMIT_MESSAGE"@, ok_str(a.commit_message_view())));
}

/// With every query up to the author one answered, the author the strict
/// run added is the one reported.
proof fn lemma_strict_author_ok(a: GitAccessOrFailed)
    requires
        a.branch_view() is Ok,
        a.commit_view() is Ok,
        a.commit_short_view() is Ok,
    ensures
        strict_author_added(a) == ok_author(a.commit_author_view()),
{
    reveal(strict_author_added);
}

/// With every query answered, no first failure exists.
proof fn lemma_no_query_err(a: GitAccessOrFailed)
    requires
        a.branch_view() is Ok,
        a.commit_view() is Ok,
        a.commit_short_view() is Ok,
        a.commit_author_view() is Ok,
        a.commit_message_view() is Ok,
        a.commit_timestamp_view() is Ok,
    ensures
        first_query_err(a) is None,
{
    reveal(first_query_err);
}

/// The configuration of the git metadata plugin.
#[derive(Debug, Clone, Copy, PartialEq, Eq, Structural)]
pub struct GitPlugin {
    /// Whether to check the parent directories for a repository.
    pub check_parents: bool,
    /// Whether to provide default values if an error occurs.
    pub provide_defaults_on_error: bool,
}

impl Default for GitPlugin {
    /// Parents are not searched; defaults are provided on error.
    fn default() -> (r: GitPlugin)
        ensures
            r.check_parents == false,
            r.provide_defaults_on_error == true,
    {
        GitPlugin { check_parents: false, provide_defaults_on_error: true }
    }
}

/// A builder for [`GitPlugin`]; unset options take the default.
#[derive(Debug, Clone, Copy, PartialEq, Eq, Structural)]
pub struct GitPluginBuilder {
    pub check_parents: Option<bool>,
    pub provide_defaults_on_error: Option<bool>,
}

impl Default for GitPluginBuilder {
    /// Both options start unset.
    fn default() -> (r: GitPluginBuilder)
        ensures
            r.check_parents is None,
            r.provide_defaults_on_error is None,
    {
        GitPluginBuilder { check_parents: Option::None, provide_defaults_on_error: Option::None }
    }
}

impl GitPluginBuilder {
    /// Sets whether parent directories are searched.
    pub fn check_parents(self, value: bool) -> (r: GitPluginBuilder)
        ensures
            r.check_parents == Option::Some(value),
            r.provide_defaults_on_error == self.provide_defaults_on_error,
    {
        GitPluginBuilder { check_parents: Option::Some(value), ..self }
    }

    /// Sets whether defaults are provided on error.
    pub fn provide_defaults_on_error(self, value: bool) -> (r: GitPluginBuilder)
        ensures
            r.provide_defaults_on_error == Option::Some(value),
            r.check_parents == self.check_parents,
    {
        GitPluginBuilder { provide_defaults_on_error: Option::Some(value), ..self }
    }

    /// Builds the plugin; every unset option takes its default, so building
    /// cannot fail.
    pub fn build(&self) -> (r: GitPlugin)
        ensures
            r.check_parents == (match self.check_parents {
                Option::Some(v) => v,
                Option::None => false,
            }),
            r.provide_defaults_on_error == (match self.provide_defaults_on_error {
                Option::Some(v) => v,
                Option::None => true,
            }),
    {
        GitPlugin {
            check_parents: match self.check_parents {
                Option::Some(v) => v,
                Option::None => false,
            },
            provide_defaults_on_error: match self.provide_defaults_on_error {
                Option::Some(v) => v,
                Option::None => true,
            },
        }
    }
}

/// Where the plugin decided to look for a repository.
#[derive(Debug, Clone, Copy, PartialEq, Eq, Structural)]
pub enum RepoSearch {
    /// The given directory holds a repository marker; use it.
    UseHere,
    /// No marker here; walk the parent directories.
    SearchParents,
    /// No marker here and parents are not searched.
    GiveUp,
}

/// A failure to set the plugin up.
#[derive(Debug, Clone, Copy, PartialEq, Eq, Structural)]
pub enum GitLoadError {
    /// No repository was found.
    NoRepository,
    /// The backend failed to load.
    Access(CLIError),
}

impl GitLoadError {
    /// A short description of the failure, for diagnostics.
    pub fn message(&self) -> (r: String)
        ensures
            *self is NoRepository ==> r@ == "No git repository found"@,
            *self matches GitLoadError::Access(_) ==> r@ == "Git command not found or unusable"@,
    {
        match self {
            GitLoadError::NoRepository => String::from_str("No git repository found"),
            GitLoadError::Access(_) => String::from_str("Git command not found or unusable"),
        }
    }
}

impl GitPlugin {
    /// Decides where to look for a repository, from whether the given
    /// directory holds one.
    pub fn search_directive(&self, git_dir_here: bool) -> (r: RepoSearch)
        ensures
            r == (if git_dir_here {
                RepoSearch::UseHere
            } else if self.check_parents {
                RepoSearch::SearchParents
            } else {
                RepoSearch::GiveUp
            }),
    {
        if git_dir_here {
            RepoSearch::UseHere
        } else if self.check_parents {
            RepoSearch::SearchParents
        } else {
            RepoSearch::GiveUp
        }
    }

    /// Decides what access the plugin runs with, from the outcome of the
    /// search and load: loaded facts are used; no repository or a failed
    /// load falls back to the placeholder provider when defaults are
    /// allowed and fails otherwise.
    pub fn resolve_load(&self, outcome: Option<Result<GitFacts, CLIError>>) -> (r: Result<
        GitAccessOrFailed,
        GitLoadError,
    >)
        ensures
            match outcome {
                Option::Some(o) => match o {
                    Result::Ok(f) => r matches Result::Ok(a) && a matches
                        GitAccessOrFailed::Success(f2) && f2 == f,
                    Result::Err(e) => if self.provide_defaults_on_error {
                        r matches Result::Ok(a) && a is Failed
                    } else {
                        r == Result::<GitAccessOrFailed, GitLoadError>::Err(
                            GitLoadError::Access(e),
                        )
                    },
                },
                Option::None => if self.provide_defaults_on_error {
                    r matches Result::Ok(a) && a is Failed
                } else {
                    r == Result::<GitAccessOrFailed, GitLoadError>::Err(GitLoadError::NoRepository)
                },
            },
    {
        match outcome {
            Option::Some(o) => match o {
                Result::Ok(f) => Result::Ok(GitAccessOrFailed::Success(f)),
                Result::Err(e) => {
                    if self.provide_defaults_on_error {
                        Result::Ok(GitAccessOrFailed::Failed(FailedAccess))
                    } else {
                        Result::Err(GitLoadError::Access(e))
                    }
                },
            },
            Option::None => {
                if self.provide_defaults_on_error {
                    Result::Ok(GitAccessOrFailed::Failed(FailedAccess))
                } else {
                    Result::Err(GitLoadError::NoRepository)
                }
            },
        }
    }
}

/// The loaded plugin: an access to query and the error policy to apply.
pub struct InnerGitPlugin {
    pub git_access: GitAccessOrFailed,
    pub provide_defaults_on_error: bool,
}

impl InnerGitPlugin {
    /// Adds the six git items, falling back to placeholders wherever a
    /// query failed or reported nothing.
    fn run_ignore_error(&self, plugin_items: &mut SmolVergenPluginItems)
        requires
            old(plugin_items).wf(),
            self.git_access.wf(),
        ensures
            final(plugin_items).wf(),
            final(plugin_items).items_view() == old(plugin_items).items_view()
                + lenient_simple_items(self.git_access),
            author_complex_added(
                old(plugin_items).complex_items@,
                final(plugin_items).complex_items@,
                Option::Some(lenient_author(self.git_access.commit_author_view())),
            ),
    {
        let b = simplify(self.git_access.get_branch(), branch());
        plugin_items.add_optional_item(
            String::from_str("BRANCH"),
            match b {
                Option::Some(s) => Option::Some(ScalarValue::Text(s)),
                Option::None => Option::None,
            },
        );
        let c = simplify(self.git_access.get_commit(), commit());
        plugin_items.add_optional_item(
            String::from_str("COMMIT"),
            match c {
                Option::Some(s) => Option::Some(ScalarValue::Text(s)),
                Option::None => Option::None,
            },
        );
        let cs = simplify(self.git_access.get_commit_short(), commit_short());
        plugin_items.add_optional_item(
            String::from_str("COMMIT_SHORT"),
            match cs {
                Option::Some(s) => Option::Some(ScalarValue::Text(s)),
                Option::None => Option::None,
            },
        );
        let a = simplify(self.git_access.get_commit_author(), commit_author());
        plugin_items.add_optional_complex_item(
            String::from_str("COMMIT_AUTHOR"),
            match a {
                Option::Some(author) => Option::Some(author.to_structured()),
                Option::None => Option::None,
            },
        );
        let m = simplify(self.git_access.get_commit_message(), commit_message());
        plugin_items.add_optional_item(
            String::from_str("COMMIT_MESSAGE"),
            match m {
                Option::Some(s) => Option::Some(ScalarValue::Text(s)),
                Option::None => Option::None,
            },
        );
        let t = simplify(self.git_access.get_commit_timestamp(), commit_timestamp());
        plugin_items.add_optional_item(
            String::from_str("COMMIT_TIMESTAMP"),
            match t {
                Option::Some(ts) => Option::Some(ScalarValue::Timestamp(ts)),
                Option::None => Option::None,
            },
        );
        proof {
            assert(plugin_items.items_view() =~= old(plugin_items).items_view()
                + lenient_simple_items(self.git_access));
        }
    }

    /// Adds the branch, commit, and shortened-commit items and the author
    /// record, aborting on the first query failure.
    #[verifier::rlimit(100)]
    fn strict_front(&self, plugin_items: &mut SmolVergenPluginItems) -> (r: Result<(), CLIError>)
        requires
            old(plugin_items).wf(),
            self.git_access.wf(),
        ensures
            final(plugin_items).wf(),
            author_complex_added(
                old(plugin_items).complex_items@,
                final(plugin_items).complex_items@,
                strict_author_added(self.git_access),
            ),
            match r {
                Result::Ok(()) => self.git_access.branch_view() is Ok
                    && self.git_access.commit_view() is Ok && self.git_access.commit_short_view() is Ok
                    && self.git_access.commit_author_view() is Ok && final(plugin_items).items_view()
                    == old(plugin_items).items_view() + opt_text_entry(
                    "BRANCH"@,
                    ok_str(self.git_access.branch_view()),
                ) + opt_text_entry("COMMIT"@, ok_str(self.git_access.commit_view()))
                    + opt_text_entry("COMMIT_SHORT"@, ok_str(self.git_access.commit_short_view())),
                Result::Err(e) => first_query_err(self.git_access) == Option::Some(e) && final(plugin_items).items_view() == old(plugin_items).items_view() + strict_items_before_err(
                    self.git_access,
                ),
            },
    {
        let b = match self.git_access.get_branch() {
            Result::Ok(o) => o,
            Result::Err(e) => {
                proof {
                    lemma_strict_stage_branch(self.git_access);
                    assert(plugin_items.items_view() =~= old(plugin_items).items_view()
                        + strict_items_before_err(self.git_access));
                }
                return Result::Err(e);
            },
        };
        plugin_items.add_optional_item(
            String::from_str("BRANCH"),
            match b {
                Option::Some(s) => Option::Some(ScalarValue::Text(s)),
                Option::None => Option::None,
            },
        );
        let ghost v1 = plugin_items.items_view();
        proof {
            assert(v1 =~= old(plugin_items).items_view() + opt_text_entry(
                "BRANCH"@,
                ok_str(self.git_access.branch_view()),
            ));
        }
        let c = match self.git_access.get_commit() {
            Result::Ok(o) => o,
            Result::Err(e) => {
                proof {
                    lemma_strict_stage_commit(self.git_access);
                    assert(plugin_items.items_view() == v1);
                    assert(plugin_items.items_view() =~= old(plugin_items).items_view()
                        + strict_items_before_err(self.git_access));
                }
                return Result::Err(e);
            },
        };
        plugin_items.add_optional_item(
            String::from_str("COMMIT"),
            match c {
                Option::Some(s) => Option::Some(ScalarValue::Text(s)),
                Option::None => Option::None,
            },
        );
        let ghost v2 = plugin_items.items_view();
        proof {
            assert(v2 =~= v1 + opt_text_entry("COMMIT"@, ok_str(self.git_access.commit_view())));
        }
        let cs = match self.git_access.get_commit_short() {
            Result::Ok(o) => o,
            Result::Err(e) => {
                proof {
                    lemma_strict_stage_short(self.git_access);
                    assert(plugin_items.items_view() == v2);
                    assert(plugin_items.items_view() =~= old(plugin_items).items_view()
                        + strict_items_before_err(self.git_access));
                }
                return Result::Err(e);
            },
        };
        plugin_items.add_optional_item(
            String::from_str("COMMIT_SHORT"),
            match cs {
                Option::Some(s) => Option::Some(ScalarValue::Text(s)),
                Option::None => Option::None,
            },
        );
        let ghost v3 = plugin_items.items_view();
        proof {
            assert(v3 =~= v2 + opt_text_entry(
                "COMMIT_SHORT"@,
                ok_str(self.git_access.commit_short_view()),
            ));
        }
        let a = match self.git_access.get_commit_author() {
            Result::Ok(o) => o,
            Result::Err(e) => {
                proof {
                    lemma_strict_stage_author(self.git_access);
                    assert(plugin_items.items_view() == v3);
                    assert(plugin_items.items_view() =~= old(plugin_items).items_view()
                        + strict_items_before_err(self.git_access));
                }
                return Result::Err(e);
            },
        };
        plugin_items.add_optional_complex_item(
            String::from_str("COMMIT_AUTHOR"),
            match a {
                Option::Some(author) => Option::Some(author.to_structured()),
                Option::None => Option::None,
            },
        );
        proof {
            lemma_strict_author_ok(self.git_access);
            assert(plugin_items.items_view() == v3);
            assert(author_complex_added(
                old(plugin_items).complex_items@,
                plugin_items.complex_items@,
                strict_author_added(self.git_access),
            ));
        }
        Result::Ok(())
    }

    /// Adds the git items, aborting on the first query failure; only the
    /// present values are added.
    #[verifier::rlimit(100)]
    fn run_with_err(&self, plugin_items: &mut SmolVergenPluginItems) -> (r: Result<(), CLIError>)
        requires
            old(plugin_items).wf(),
            self.git_access.wf(),
        ensures
            final(plugin_items).wf(),
            author_complex_added(
                old(plugin_items).complex_items@,
                final(plugin_items).complex_items@,
                strict_author_added(self.git_access),
            ),
            match r {
                Result::Ok(()) => first_query_err(self.git_access) is None && final(plugin_items).items_view() == old(plugin_items).items_view() + strict_simple_items(
                    self.git_access,
                ),
                Result::Err(e) => first_query_err(self.git_access) == Option::Some(e) && final(plugin_items).items_view() == old(plugin_items).items_view() + strict_items_before_err(
                    self.git_access,
                ),
            },
    {
        match self.strict_front(plugin_items) {
            Result::Ok(()) => {},
            Result::Err(e) => {
                return Result::Err(e);
            },
        }
        let ghost v3 = plugin_items.items_view();
        let m = match self.git_access.get_commit_message() {
            Result::Ok(o) => o,
            Result::Err(e) => {
                proof {
                    lemma_strict_stage_message(self.git_access);
                    assert(plugin_items.items_view() =~= old(plugin_items).items_view()
                        + strict_items_before_err(self.git_access));
                }
                return Result::Err(e);
            },
        };
        plugin_items.add_optional_item(
            String::from_str("COMMIT_MESSAGE"),
            match m {
                Option::Some(s) => Option::Some(ScalarValue::Text(s)),
                Option::None => Option::None,
            },
        );
        let ghost v4 = plugin_items.items_view();
        proof {
            assert(v4 =~= v3 + opt_text_entry(
                "COMMIT_MESSAGE"@,
                ok_str(self.git_access.commit_message_view()),
            ));
        }
        let t = match self.git_access.get_commit_timestamp() {
            Result::Ok(o) => o,
            Result::Err(e) => {
                proof {
                    lemma_strict_stage_timestamp(self.git_access);
                    assert(plugin_items.items_view() == v4);
                    assert(plugin_items.items_view() =~= old(plugin_items).items_view()
                        + strict_items_before_err(self.git_access));
                }
                return Result::Err(e);
            },
        };
        plugin_items.add_optional_item(
            String::from_str("COMMIT_TIMESTAMP"),
            match t {
                Option::Some(ts) => Option::Some(ScalarValue::Timestamp(ts)),
                Option::None => Option::None,
            },
        );
        proof {
            assert(plugin_items.items_view() =~= v4 + opt_ts_entry(
                "COMMIT_TIMESTAMP"@,
                ok_ts(self.git_access.commit_timestamp_view()),
            ));
            assert(plugin_items.items_view() =~= old(plugin_items).items_view()
                + strict_simple_items(self.git_access));
            lemma_no_query_err(self.git_access);
        }
        Result::Ok(())
    }

    /// Runs the plugin: queries the access and adds the git items,
    /// applying the configured error policy.
    pub fn run(&self, plugin_items: &mut SmolVergenPluginItems) -> (r: Result<(), CLIError>)
        requires
            old(plugin_items).wf(),
            self.git_access.wf(),
        ensures
            final(plugin_items).wf(),
            self.provide_defaults_on_error ==> r is Ok && final(plugin_items).items_view() == old(plugin_items).items_view() + lenient_simple_items(self.git_access)
                && author_complex_added(
                old(plugin_items).complex_items@,
                final(plugin_items).complex_items@,
                Option::Some(lenient_author(self.git_access.commit_author_view())),
            ),
            !self.provide_defaults_on_error ==> author_complex_added(
                old(plugin_items).complex_items@,
                final(plugin_items).complex_items@,
                strict_author_added(self.git_access),
            ) && match r {
                Result::Ok(()) => first_query_err(self.git_access) is None && final(plugin_items).items_view() == old(plugin_items).items_view() + strict_simple_items(
                    self.git_access,
                ),
                Result::Err(e) => first_query_err(self.git_access) == Option::Some(e) && final(plugin_items).items_view() == old(plugin_items).items_view() + strict_items_before_err(
                    self.git_access,
                ),
            },
    {
        if self.provide_defaults_on_error {
            self.run_ignore_error(plugin_items);
            Result::Ok(())
        } else {
            self.run_with_err(plugin_items)
        }
    }
}

} // verus!
