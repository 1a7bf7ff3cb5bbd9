//! A thread identifier in a form that is useful in logs.
use vstd::prelude::*;
use vstd::string::StringExecFns;

use crate::unique::UniqueThreadId;

verus! {

/// The character of a decimal digit.
pub open spec fn digit_char(d: nat) -> char {
    if d == 0 {
        '0'
    } else if d == 1 {
        '1'
    } else if d == 2 {
        '2'
    } else if d == 3 {
        '3'
    } else if d == 4 {
        '4'
    } else if d == 5 {
        '5'
    } else if d == 6 {
        '6'
    } else if d == 7 {
        '7'
    } else if d == 8 {
        '8'
    } else {
        '9'
    }
}

/// The decimal digits of `n`, most significant first, without leading zeros.
pub open spec fn decimal(n: nat) -> Seq<char>
    decreases n,
{
    if n < 10 {
        seq![digit_char(n)]
    } else {
        decimal(n / 10).push(digit_char(n % 10))
    }
}

/// A thread's name between double quotes, with the characters that cannot
/// stand in a string literal escaped: what formatting a `str` with `{:?}`
/// gives.
pub uninterp spec fn debug_quoted(name: Seq<char>) -> Seq<char>;

/// The short form: the identifier, followed by the quoted name in round
/// brackets where the thread has one.
pub open spec fn display_text(id: u64, quoted: Option<Seq<char>>) -> Seq<char> {
    match quoted {
        Some(q) => decimal(id as nat) + seq!['('] + q + seq![')'],
        None => decimal(id as nat),
    }
}

/// The long form: `ThreadId(`, the identifier, a comma and the quoted name
/// where the thread has one, and `)`.
pub open spec fn debug_text(id: u64, quoted: Option<Seq<char>>) -> Seq<char> {
    match quoted {
        Some(q) => "ThreadId("@ + decimal(id as nat) + ", "@ + q + seq![')'],
        None => "ThreadId("@ + decimal(id as nat) + seq![')'],
    }
}

/// The one-character string of a decimal digit.
fn digit_str(d: u64) -> (s: &'static str)
    requires
        d < 10,
    ensures
        s@ == seq![digit_char(d as nat)],
{
    proof {
        reveal_strlit("0");
        reveal_strlit("1");
        reveal_strlit("2");
        reveal_strlit("3");
        reveal_strlit("4");
        reveal_strlit("5");
        reveal_strlit("6");
        reveal_strlit("7");
        reveal_strlit("8");
        reveal_strlit("9");
    }
    let s = if d == 0 {
        "0"
    } else if d == 1 {
        "1"
    } else if d == 2 {
        "2"
    } else if d == 3 {
        "3"
    } else if d == 4 {
        "4"
    } else if d == 5 {
        "5"
    } else if d == 6 {
        "6"
    } else if d == 7 {
        "7"
    } else if d == 8 {
        "8"
    } else {
        "9"
    };
    assert(s@ =~= seq![digit_char(d as nat)]);
    s
}

/// Appends the decimal digits of `n` to `out`.
pub fn push_decimal(out: &mut String, n: u64)
    ensures
        final(out)@ == old(out)@ + decimal(n as nat),
    decreases n,
{
    if n >= 10 {
        push_decimal(out, n / 10);
    }
    out.append(digit_str(n % 10));
    assert(out@ =~= old(out)@ + decimal(n as nat));
}

/// Formats `name` with `{:?}`, as the standard library does for every `str`.
/// The result is named, not spelled out: it is a function of the name alone.
#[verifier::external_body]
fn quote(name: &str) -> (quoted: String)
    ensures
        quoted@ == debug_quoted(name@),
{
    format!("{:?}", name)
}

/// Identifies a thread by its unique identifier and, where it has one, by
/// its name.
pub struct DebugThreadId {
    name: Option<String>,
    id: UniqueThreadId,
}

impl Clone for DebugThreadId {
    /// A copy with the same identifier and the same name.
    fn clone(&self) -> (copy: Self)
        ensures
            copy.unique_id() == self.unique_id(),
            copy.name_text() == self.name_text(),
    {
        let name = match &self.name {
            Some(name) => Some(name.clone()),
            None => None,
        };
        DebugThreadId { name, id: self.id }
    }
}

impl DebugThreadId {
    /// The name that the value was made with.
    pub closed spec fn name_text(&self) -> Option<Seq<char>> {
        match self.name {
            Some(name) => Some(name@),
            None => None,
        }
    }

    /// The identifier that the value was made with.
    pub closed spec fn unique_id(&self) -> UniqueThreadId {
        self.id
    }

    /// The name as it appears in the formatted forms.
    pub open spec fn quoted_name(&self) -> Option<Seq<char>> {
        match self.name_text() {
            Some(name) => Some(debug_quoted(name)),
            None => None,
        }
    }

    /// Puts an identifier and the thread's name together.
    pub fn new(id: UniqueThreadId, name: Option<String>) -> (this: DebugThreadId)
        ensures
            this.unique_id() == id,
            this.name_text() == (match name {
                Some(name) => Some(name@),
                None => None,
            }),
    {
        DebugThreadId { name, id }
    }

    /// The name of the thread, or `None` where it has none.
    pub fn name(&self) -> (name: Option<&str>)
        ensures
            name is Some <==> self.name_text() is Some,
            name matches Some(text) ==> self.name_text() == Some(text@),
    {
        match &self.name {
            Some(name) => Some(name.as_str()),
            None => None,
        }
    }

    /// The unique identifier of the thread.
    pub fn id(&self) -> (id: UniqueThreadId)
        ensures
            id == self.unique_id(),
    {
        self.id
    }

    /// The short form from its parts: `quoted` is the name as
    /// [`debug_quoted`] gives it.
    pub fn compose_display(id: u64, quoted: Option<&str>) -> (text: String)
        ensures
            text@ == display_text(
                id,
                match quoted {
                    Some(q) => Some(q@),
                    None => None,
                },
            ),
    {
        let mut text = String::new();
        push_decimal(&mut text, id);
        if let Some(q) = quoted {
            proof {
                reveal_strlit("(");
                reveal_strlit(")");
            }
            text.append("(");
            text.append(q);
            text.append(")");
            assert(text@ =~= decimal(id as nat) + seq!['('] + q@ + seq![')']);
        }
        text
    }

    /// The long form from its parts: `quoted` is the name as
    /// [`debug_quoted`] gives it.
    pub fn compose_debug(id: u64, quoted: Option<&str>) -> (text: String)
        ensures
            text@ == debug_text(
                id,
                match quoted {
                    Some(q) => Some(q@),
                    None => None,
                },
            ),
    {
        let mut text = String::new();
        text.append("ThreadId(");
        push_decimal(&mut text, id);
        proof {
            reveal_strlit(")");
        }
        match quoted {
            Some(q) => {
                text.append(", ");
                text.append(q);
                text.append(")");
                assert(text@ =~= "ThreadId("@ + decimal(id as nat) + ", "@ + q@ + seq![')']);
            },
            None => {
                text.append(")");
                assert(text@ =~= "ThreadId("@ + decimal(id as nat) + seq![')']);
            },
        }
        text
    }

    /// The short form: the identifier, then the quoted name in round brackets
    /// where the thread has one.
    pub fn to_display_string(&self) -> (text: String)
        ensures
            text@ == display_text(self.unique_id()@, self.quoted_name()),
    {
        let id = self.id.to_int();
        match &self.name {
            Some(name) => {
                let quoted = quote(name.as_str());
                Self::compose_display(id, Some(quoted.as_str()))
            },
            None => Self::compose_display(id, None),
        }
    }

    /// The long form: `ThreadId(`, the identifier, a comma and the quoted
    /// name where the thread has one, and `)`.
    pub fn to_debug_string(&self) -> (text: String)
        ensures
            text@ == debug_text(self.unique_id()@, self.quoted_name()),
    {
        let id = self.id.to_int();
        match &self.name {
            Some(name) => {
                let quoted = quote(name.as_str());
                Self::compose_debug(id, Some(quoted.as_str()))
            },
            None => Self::compose_debug(id, None),
        }
    }
}

} // verus!
