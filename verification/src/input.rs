//! The commands a user types at the console, and how a console reader turns
//! each line it reads into a command or an error to show.

use vstd::prelude::*;
use vstd::string::{StrSliceExecFns, StringExecFns};

verus! {

/// What a user can ask the client to do.
#[derive(Debug, Clone, Copy, PartialEq, Eq)]
pub enum UserRequest {
    Publish,
    Subscribe,
    Disconnect,
}

/// A reader of console lines; `buffer` holds the line being read.
pub struct ConsoleInput {
    pub buffer: String,
}

/// What a console reader does with a line it read.
#[derive(Debug, Clone, PartialEq, Eq)]
pub enum PopStep {
    /// The line names a command: hand it over.
    Done(UserRequest),
    /// Show this text and read another line.
    Retry(String),
}

/// The lower-case form of `s`, as Unicode defines it.
pub uninterp spec fn lowercase(s: Seq<char>) -> Seq<char>;

/// Whether `c` has the Unicode property `White_Space`.
pub open spec fn is_white_space(c: char) -> bool {
    let v = c as u32;
    ||| 0x9 <= v <= 0xd
    ||| v == 0x20 || v == 0x85 || v == 0xa0 || v == 0x1680
    ||| 0x2000 <= v <= 0x200a
    ||| v == 0x2028 || v == 0x2029 || v == 0x202f || v == 0x205f || v == 0x3000
}

/// `s` without its leading white space.
pub open spec fn trim_start(s: Seq<char>) -> Seq<char>
    decreases s.len(),
{
    if s.len() > 0 && is_white_space(s[0]) {
        trim_start(s.drop_first())
    } else {
        s
    }
}

/// `s` without its trailing white space.
pub open spec fn trim_end(s: Seq<char>) -> Seq<char>
    decreases s.len(),
{
    if s.len() > 0 && is_white_space(s.last()) {
        trim_end(s.drop_last())
    } else {
        s
    }
}

/// `s` without its leading and trailing white space.
pub open spec fn trim(s: Seq<char>) -> Seq<char> {
    trim_end(trim_start(s))
}

/// `str::to_lowercase`: the lower-case form of `s`, by Unicode's full case
/// mapping. The contract names the result and says nothing more of it.
#[verifier::external_body]
fn to_lowercase(s: &str) -> (r: String)
    ensures
        r@ == lowercase(s@),
{
    s.to_lowercase()
}

/// `str::trim`: `s` without leading and trailing characters of the Unicode
/// property `White_Space`, as its documentation says.
#[verifier::external_body]
fn trim_white_space(s: &str) -> (r: &str)
    ensures
        r@ == trim(s@),
{
    s.trim()
}

/// The command that the text `t` names, if any.
pub open spec fn command_of(t: Seq<char>) -> Option<UserRequest> {
    if t.len() != 1 {
        None
    } else if t[0] == '1' {
        Some(UserRequest::Publish)
    } else if t[0] == '2' {
        Some(UserRequest::Subscribe)
    } else if t[0] == '3' {
        Some(UserRequest::Disconnect)
    } else {
        None
    }
}

/// `r` is the answer to the (already lower-case) text `t`: its command, or
/// the text that says the command is invalid.
pub open spec fn answers(r: Result<UserRequest, String>, t: Seq<char>) -> bool {
    match command_of(t) {
        Some(c) => r == Ok::<UserRequest, String>(c),
        None => r matches Err(e) && e@ == t + " command invalid"@,
    }
}

impl UserRequest {
    /// The command that the lower-case text `lower` names: "1" publishes,
    /// "2" subscribes and "3" disconnects; any other text is refused.
    pub fn from_lowercase(lower: &str) -> (r: Result<UserRequest, String>)
        ensures
            answers(r, lower@),
            lower@ == seq!['1'] ==> r == Ok::<UserRequest, String>(UserRequest::Publish),
            lower@ == seq!['2'] ==> r == Ok::<UserRequest, String>(UserRequest::Subscribe),
            lower@ == seq!['3'] ==> r == Ok::<UserRequest, String>(UserRequest::Disconnect),
            (lower@ != seq!['1'] && lower@ != seq!['2'] && lower@ != seq!['3']) ==>
                (r matches Err(e) && e@ == lower@ + " command invalid"@),
    {
        proof {
            reveal_strlit(" command invalid");
        }
        if lower.unicode_len() == 1 {
            let c = lower.get_char(0);
            assert(lower@ =~= seq![c]);
            if c == '1' {
                return Ok(UserRequest::Publish);
            } else if c == '2' {
                return Ok(UserRequest::Subscribe);
            } else if c == '3' {
                return Ok(UserRequest::Disconnect);
            }
        }
        let mut e = String::from_str(lower);
        e.append(" command invalid");
        Err(e)
    }

    /// The command that `s` names, compared in lower case.
    pub fn from_str(s: &str) -> (r: Result<UserRequest, String>)
        ensures
            answers(r, lowercase(s@)),
    {
        let lower = to_lowercase(s);
        UserRequest::from_lowercase(lower.as_str())
    }
}

impl std::str::FromStr for UserRequest {
    type Err = String;

    fn from_str(s: &str) -> (r: Result<UserRequest, String>)
        ensures
            answers(r, lowercase(s@)),
    {
        UserRequest::from_str(s)
    }
}

impl ConsoleInput {
    /// Empties the buffer before the next line is read into it.
    pub fn clear(&mut self)
        ensures
            final(self).buffer@ == Seq::<char>::empty(),
    {
        self.buffer = String::new();
    }

    /// What to do once a read into the buffer finished: on success, the
    /// command that the line names, without its surrounding white space and in
    /// lower case, or the error to show; on failure, the read error to show.
    pub fn on_read(&self, read: Result<usize, String>) -> (step: PopStep)
        ensures
            match read {
                Ok(_) => {
                    let t = lowercase(trim(self.buffer@));
                    match command_of(t) {
                        Some(c) => step == PopStep::Done(c),
                        None => step matches PopStep::Retry(m)
                            && m@ == "Error --- "@ + t + " command invalid"@,
                    }
                },
                Err(e) => step matches PopStep::Retry(m) && m@ == "Error reading input: "@ + e@,
            },
    {
        match read {
            Ok(_) => match UserRequest::from_str(trim_white_space(self.buffer.as_str())) {
                Ok(item) => PopStep::Done(item),
                Err(err) => {
                    let mut m = String::from_str("Error --- ");
                    m.append(err.as_str());
                    PopStep::Retry(m)
                },
            },
            Err(e) => {
                let mut m = String::from_str("Error reading input: ");
                m.append(e.as_str());
                PopStep::Retry(m)
            },
        }
    }
}

/// Exactly the texts "1", "2" and "3" name commands (publish, subscribe and
/// disconnect); every other text is refused with itself followed by
/// " command invalid".
pub proof fn law_only_three_commands(t: Seq<char>, r: Result<UserRequest, String>)
    requires
        answers(r, t),
    ensures
        t == seq!['1'] ==> r == Ok::<UserRequest, String>(UserRequest::Publish),
        t == seq!['2'] ==> r == Ok::<UserRequest, String>(UserRequest::Subscribe),
        t == seq!['3'] ==> r == Ok::<UserRequest, String>(UserRequest::Disconnect),
        (t != seq!['1'] && t != seq!['2'] && t != seq!['3']) ==> (r matches Err(e) && e@ == t + " command invalid"@),
        command_of(t) == Some(UserRequest::Publish) <==> t == seq!['1'],
        command_of(t) == Some(UserRequest::Subscribe) <==> t == seq!['2'],
        command_of(t) == Some(UserRequest::Disconnect) <==> t == seq!['3'],
{
    if t.len() == 1 {
        if t[0] == '1' {
            assert(t =~= seq!['1']);
        } else if t[0] == '2' {
            assert(t =~= seq!['2']);
        } else if t[0] == '3' {
            assert(t =~= seq!['3']);
        }
    }
}

} // verus!
