//! The player's answers, and how a line of input is read as one.

use vstd::prelude::*;

verus! {

/// Whether `c` is white space: a code point with the Unicode property
/// `White_Space`.
pub open spec fn whitespace(c: char) -> bool {
    let code = c as u32;
    ||| 0x09 <= code <= 0x0D
    ||| code == 0x20
    ||| code == 0x85
    ||| code == 0xA0
    ||| code == 0x1680
    ||| 0x2000 <= code <= 0x200A
    ||| code == 0x2028
    ||| code == 0x2029
    ||| code == 0x202F
    ||| code == 0x205F
    ||| code == 0x3000
}

/// `s` without the white space it starts with.
pub open spec fn trim_start(s: Seq<char>) -> Seq<char>
    decreases s.len(),
{
    if s.len() > 0 && whitespace(s.first()) {
        trim_start(s.drop_first())
    } else {
        s
    }
}

/// `s` without the white space it ends with.
pub open spec fn trim_end(s: Seq<char>) -> Seq<char>
    decreases s.len(),
{
    if s.len() > 0 && whitespace(s.last()) {
        trim_end(s.drop_last())
    } else {
        s
    }
}

/// `s` without the white space around it.
pub open spec fn trimmed(s: Seq<char>) -> Seq<char> {
    trim_end(trim_start(s))
}

/// Tells whether `c` is white space.
pub fn is_whitespace(c: char) -> (b: bool)
    ensures
        b == whitespace(c),
{
    let code: u32 = c as u32;
    (0x09 <= code && code <= 0x0D) || code == 0x20 || code == 0x85 || code == 0xA0 || code
        == 0x1680 || (0x2000 <= code && code <= 0x200A) || code == 0x2028 || code == 0x2029
        || code == 0x202F || code == 0x205F || code == 0x3000
}

/// What the player says of a guess.
#[derive(Clone, Copy, Debug, PartialEq, Eq, Structural)]
pub enum Response {
    /// The guess is below the number: `<`.
    TooLow,
    /// The guess is above the number: `>`.
    TooHigh,
    /// The guess is the number: `=`.
    Correct,
    /// The player leaves the game: `q`.
    Quit,
}

impl Response {
    /// The response that the character `c` stands for, if any.
    pub open spec fn of_char(c: char) -> Option<Response> {
        if c == '<' {
            Some(Response::TooLow)
        } else if c == '>' {
            Some(Response::TooHigh)
        } else if c == '=' {
            Some(Response::Correct)
        } else if c == 'q' {
            Some(Response::Quit)
        } else {
            None
        }
    }

    /// The response that a line of input gives: the line, without the white
    /// space around it, must be exactly one of the four characters.
    pub open spec fn of_line(line: Seq<char>) -> Option<Response> {
        let token = trimmed(line);
        if token.len() == 1 {
            Self::of_char(token[0])
        } else {
            None
        }
    }

    /// Reads one character as a response.
    pub fn from_char(c: char) -> (r: Option<Response>)
        ensures
            r == Self::of_char(c),
    {
        if c == '<' {
            Some(Response::TooLow)
        } else if c == '>' {
            Some(Response::TooHigh)
        } else if c == '=' {
            Some(Response::Correct)
        } else if c == 'q' {
            Some(Response::Quit)
        } else {
            None
        }
    }

    /// Reads a line of input as a response. White space around the token is
    /// ignored, a line end included; anything but one of the four tokens
    /// gives `None`.
    pub fn parse(line: &str) -> (r: Option<Response>)
        ensures
            r == Self::of_line(line@),
    {
        let mut token: Option<char> = None;
        let mut crowded = false;
        let ghost mut first: int = 0;
        let ghost mut last: int = 0;
        for c in it: line.chars()
            invariant
                it.seq() == line@,
                token is None ==> !crowded && forall|j: int|
                    0 <= j < it.index() ==> whitespace(#[trigger] line@[j]),
                token matches Some(t) ==> {
                    &&& 0 <= first <= last < it.index()
                    &&& line@[first] == t
                    &&& !whitespace(line@[first])
                    &&& !whitespace(line@[last])
                    &&& crowded <==> first < last
                    &&& forall|j: int| 0 <= j < first ==> whitespace(#[trigger] line@[j])
                    &&& forall|j: int| last < j < it.index() ==> whitespace(#[trigger] line@[j])
                },
        {
            if !is_whitespace(c) {
                if token.is_none() {
                    token = Some(c);
                    proof {
                        first = it.index();
                    }
                } else {
                    crowded = true;
                }
                proof {
                    last = it.index();
                }
            }
        }
        proof {
            match token {
                None => lemma_trimmed_blank(line@),
                Some(_) => lemma_trimmed_between(line@, first, last),
            }
        }
        match token {
            Some(t) if !crowded => Self::from_char(t),
            _ => None,
        }
    }
}

/// A sequence of white space alone is trimmed to nothing.
pub proof fn lemma_trimmed_blank(s: Seq<char>)
    requires
        forall|j: int| 0 <= j < s.len() ==> whitespace(#[trigger] s[j]),
    ensures
        trimmed(s) == Seq::<char>::empty(),
    decreases s.len(),
{
    if s.len() > 0 {
        lemma_trimmed_blank(s.drop_first());
    }
}

/// Trimming keeps exactly what lies between the first and the last character
/// that is not white space.
pub proof fn lemma_trimmed_between(s: Seq<char>, first: int, last: int)
    requires
        0 <= first <= last < s.len(),
        !whitespace(s[first]),
        !whitespace(s[last]),
        forall|j: int| 0 <= j < first ==> whitespace(#[trigger] s[j]),
        forall|j: int| last < j < s.len() ==> whitespace(#[trigger] s[j]),
    ensures
        trimmed(s) == s.subrange(first, last + 1),
{
    lemma_trim_start_from(s, first);
    lemma_trim_end_to(s.subrange(first, s.len() as int), last - first);
}

proof fn lemma_trim_start_from(s: Seq<char>, first: int)
    requires
        0 <= first < s.len(),
        !whitespace(s[first]),
        forall|j: int| 0 <= j < first ==> whitespace(#[trigger] s[j]),
    ensures
        trim_start(s) == s.subrange(first, s.len() as int),
    decreases first,
{
    if first > 0 {
        let rest = s.drop_first();
        assert(forall|j: int| 0 <= j < first - 1 ==> rest[j] == s[j + 1]);
        lemma_trim_start_from(rest, first - 1);
        assert(rest.subrange(first - 1, rest.len() as int) == s.subrange(first, s.len() as int));
    } else {
        assert(s.subrange(0, s.len() as int) == s);
    }
}

proof fn lemma_trim_end_to(s: Seq<char>, last: int)
    requires
        0 <= last < s.len(),
        !whitespace(s[last]),
        forall|j: int| last < j < s.len() ==> whitespace(#[trigger] s[j]),
    ensures
        trim_end(s) == s.subrange(0, last + 1),
    decreases s.len() - last,
{
    if last + 1 < s.len() {
        let rest = s.drop_last();
        lemma_trim_end_to(rest, last);
        assert(rest.subrange(0, last + 1) == s.subrange(0, last + 1));
    } else {
        assert(s.subrange(0, s.len() as int) == s);
    }
}

} // verus!
