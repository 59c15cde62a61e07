//! The argument cursor: the unread part of one invocation's argument text,
//! read token by token.

use vstd::prelude::*;
use crate::text::{
    chars_of, is_space, is_whitespace, parse_int, read_int, slice_of, string_of,
};

verus! {

/// The first position at or after `i` that holds no white space, or the
/// length of `s` if there is none.
pub open spec fn skip_spaces(s: Seq<char>, i: int) -> int
    decreases s.len() - i,
{
    if 0 <= i < s.len() && is_space(s[i]) {
        skip_spaces(s, i + 1)
    } else {
        i
    }
}

/// The first position at or after `i` that holds white space, or the length
/// of `s` if there is none.
pub open spec fn token_end(s: Seq<char>, i: int) -> int
    decreases s.len() - i,
{
    if 0 <= i < s.len() && !is_space(s[i]) {
        token_end(s, i + 1)
    } else {
        i
    }
}

/// The number of tokens of `s` that begin at or after `i`.
pub open spec fn count_tokens(s: Seq<char>, i: int) -> nat
    decreases s.len() - i,
{
    let start = skip_spaces(s, i);
    if 0 <= i && start < s.len() {
        proof {
            lemma_skip_spaces(s, i);
            lemma_token_end(s, start);
        }
        1 + count_tokens(s, token_end(s, start))
    } else {
        0
    }
}

/// The end of `s` with the white space before `hi` left off, but not below
/// `lo`.
pub open spec fn trimmed_end(s: Seq<char>, lo: int, hi: int) -> int
    decreases hi - lo,
{
    if lo < hi <= s.len() && is_space(s[hi - 1]) {
        trimmed_end(s, lo, hi - 1)
    } else {
        hi
    }
}

/// Where `skip_spaces` ends: in the text, behind white space only, and not
/// at white space.
pub proof fn lemma_skip_spaces(s: Seq<char>, i: int)
    requires
        0 <= i <= s.len(),
    ensures
        i <= skip_spaces(s, i) <= s.len(),
        skip_spaces(s, i) < s.len() ==> !is_space(s[skip_spaces(s, i)]),
        forall|k: int| i <= k < skip_spaces(s, i) ==> is_space(#[trigger] s[k]),
    decreases s.len() - i,
{
    if i < s.len() && is_space(s[i]) {
        lemma_skip_spaces(s, i + 1);
    }
}

/// Where `token_end` ends: in the text, behind a run without white space,
/// at white space or at the end, and behind `i` where a token begins there.
pub proof fn lemma_token_end(s: Seq<char>, i: int)
    requires
        0 <= i <= s.len(),
    ensures
        i <= token_end(s, i) <= s.len(),
        token_end(s, i) < s.len() ==> is_space(s[token_end(s, i)]),
        forall|k: int| i <= k < token_end(s, i) ==> !is_space(#[trigger] s[k]),
        i < s.len() && !is_space(s[i]) ==> i < token_end(s, i),
    decreases s.len() - i,
{
    if i < s.len() && !is_space(s[i]) {
        lemma_token_end(s, i + 1);
    }
}

/// The exec counterpart of `skip_spaces`.
pub fn skip_spaces_from(s: &Vec<char>, i: usize) -> (r: usize)
    requires
        i <= s.len(),
    ensures
        r == skip_spaces(s@, i as int),
        i <= r <= s.len(),
{
    let mut k: usize = i;
    while k < s.len() && is_whitespace(s[k])
        invariant
            i <= k <= s.len(),
            skip_spaces(s@, i as int) == skip_spaces(s@, k as int),
        decreases s.len() - k,
    {
        k += 1;
    }
    k
}

/// The exec counterpart of `token_end`.
pub fn token_end_from(s: &Vec<char>, i: usize) -> (r: usize)
    requires
        i <= s.len(),
    ensures
        r == token_end(s@, i as int),
        i <= r <= s.len(),
{
    let mut k: usize = i;
    while k < s.len() && !is_whitespace(s[k])
        invariant
            i <= k <= s.len(),
            token_end(s@, i as int) == token_end(s@, k as int),
        decreases s.len() - k,
    {
        k += 1;
    }
    k
}

/// The exec counterpart of `trimmed_end`.
pub fn trimmed_end_from(s: &Vec<char>, lo: usize, hi: usize) -> (r: usize)
    requires
        lo <= hi <= s.len(),
    ensures
        r == trimmed_end(s@, lo as int, hi as int),
        lo <= r <= hi,
{
    let mut k: usize = hi;
    while lo < k && is_whitespace(s[k - 1])
        invariant
            lo <= k <= hi <= s.len(),
            trimmed_end(s@, lo as int, hi as int) == trimmed_end(s@, lo as int, k as int),
        decreases k,
    {
        k -= 1;
    }
    k
}

/// Why a token could not be read.
#[derive(Clone, Copy, Debug, PartialEq, Eq, Structural)]
pub enum ParseError {
    /// No token remains.
    Missing,
    /// The next token is not of the kind that was asked for.
    Invalid,
}

impl ParseError {
    /// The sentence that tells of the error.
    pub open spec fn text(self) -> Seq<char> {
        match self {
            ParseError::Missing => "ArgError(\"end of string\")"@,
            ParseError::Invalid => "ArgError(\"invalid digit found in string\")"@,
        }
    }

    /// The sentence that tells of the error.
    pub fn message(&self) -> (m: String)
        ensures
            m@ == self.text(),
    {
        let chars = match self {
            ParseError::Missing => chars_of("ArgError(\"end of string\")"),
            ParseError::Invalid => chars_of("ArgError(\"invalid digit found in string\")"),
        };
        string_of(&chars)
    }
}

/// What a cursor is, as a value of mathematics: the argument text, the read
/// position in it, and, directly after a token was consumed, the position
/// from which it was consumed.
pub struct CursorModel {
    pub text: Seq<char>,
    pub pos: int,
    pub consumed_from: Option<int>,
}

impl CursorModel {
    /// A position between tokens: never inside one.
    pub open spec fn boundary(self, p: int) -> bool {
        &&& 0 <= p <= self.text.len()
        &&& (p == 0 || p == self.text.len() || is_space(self.text[p]) || is_space(
            self.text[p - 1],
        ))
    }

    /// Validity: the position, and the position that a rewind goes back to,
    /// lie between tokens, the second not behind the first.
    pub open spec fn wf(self) -> bool {
        &&& self.boundary(self.pos)
        &&& self.consumed_from matches Some(p) ==> self.boundary(p) && p <= self.pos
    }

    /// A fresh cursor over `text`.
    pub open spec fn start(text: Seq<char>) -> CursorModel {
        CursorModel { text, pos: 0, consumed_from: None }
    }

    /// Where the next token begins, or the length of the text.
    pub open spec fn token_start(self) -> int {
        skip_spaces(self.text, self.pos)
    }

    /// Whether a token remains.
    pub open spec fn has_token(self) -> bool {
        self.token_start() < self.text.len()
    }

    /// The next token.
    pub open spec fn token(self) -> Seq<char> {
        self.text.subrange(self.token_start(), token_end(self.text, self.token_start()))
    }

    /// The cursor after the next token was consumed.
    pub open spec fn consume(self) -> CursorModel {
        CursorModel {
            text: self.text,
            pos: token_end(self.text, self.token_start()),
            consumed_from: Some(self.pos),
        }
    }

    /// Whether a rewind would move the cursor.
    pub open spec fn can_rewind(self) -> bool {
        self.consumed_from is Some
    }

    /// The cursor after a rewind: back before the token that was consumed
    /// last, or unchanged if the last operation consumed none.
    pub open spec fn rewind(self) -> CursorModel {
        match self.consumed_from {
            Some(p) => CursorModel { text: self.text, pos: p, consumed_from: None },
            None => self,
        }
    }

    /// The unread text, without the white space around it.
    pub open spec fn rest(self) -> Seq<char> {
        self.text.subrange(
            self.token_start(),
            trimmed_end(self.text, self.token_start(), self.text.len() as int),
        )
    }

    /// The number of unread tokens.
    pub open spec fn remaining(self) -> nat {
        count_tokens(self.text, self.pos)
    }
}

/// The unread part of one invocation's argument text.
#[derive(Debug)]
pub struct ArgumentCursor {
    text: Vec<char>,
    pos: usize,
    consumed_from: Option<usize>,
}

impl View for ArgumentCursor {
    type V = CursorModel;

    closed spec fn view(&self) -> CursorModel {
        CursorModel {
            text: self.text@,
            pos: self.pos as int,
            consumed_from: match self.consumed_from {
                Some(p) => Some(p as int),
                None => None,
            },
        }
    }
}

impl ArgumentCursor {
    /// Validity: the positions lie in the text, between tokens.
    pub open spec fn wf(&self) -> bool {
        self@.wf()
    }

    /// A cursor at the start of `text`.
    pub fn new(text: &str) -> (c: ArgumentCursor)
        ensures
            c.wf(),
            c@ == CursorModel::start(text@),
    {
        ArgumentCursor { text: chars_of(text), pos: 0, consumed_from: None }
    }

    /// A cursor at the start of the text that `chars` spell.
    pub fn from_chars(chars: Vec<char>) -> (c: ArgumentCursor)
        ensures
            c.wf(),
            c@ == CursorModel::start(chars@),
    {
        ArgumentCursor { text: chars, pos: 0, consumed_from: None }
    }

    /// The whole argument text, as it was given.
    pub fn message(&self) -> (m: String)
        ensures
            m@ == self@.text,
    {
        string_of(&self.text)
    }

    /// Consumes the next token and returns it. With no token left the cursor
    /// stays as it is.
    pub fn single(&mut self) -> (r: Result<String, ParseError>)
        requires
            old(self).wf(),
        ensures
            final(self).wf(),
            match r {
                Ok(token) => old(self)@.has_token() && final(self)@ == old(self)@.consume()
                    && token@ == old(self)@.token(),
                Err(e) => !old(self)@.has_token() && e == ParseError::Missing && final(self)@
                    == old(self)@,
            },
    {
        let start = skip_spaces_from(&self.text, self.pos);
        if start >= self.text.len() {
            return Err(ParseError::Missing);
        }
        let end = token_end_from(&self.text, start);
        proof {
            lemma_token_end(self.text@, start as int);
        }
        let token = slice_of(&self.text, start, end);
        self.consumed_from = Some(self.pos);
        self.pos = end;
        Ok(string_of(&token))
    }

    /// Consumes the next token if it spells an integer, and returns the
    /// integer. With no token left, or with one that spells none, the cursor
    /// stays as it is.
    pub fn single_int(&mut self) -> (r: Result<i64, ParseError>)
        requires
            old(self).wf(),
        ensures
            final(self).wf(),
            match r {
                Ok(v) => old(self)@.has_token() && parse_int(old(self)@.token()) == Some(v as int)
                    && final(self)@ == old(self)@.consume(),
                Err(e) => final(self)@ == old(self)@ && e == (if old(self)@.has_token() {
                    ParseError::Invalid
                } else {
                    ParseError::Missing
                }) && (old(self)@.has_token() ==> parse_int(old(self)@.token()) is None),
            },
    {
        let start = skip_spaces_from(&self.text, self.pos);
        if start >= self.text.len() {
            return Err(ParseError::Missing);
        }
        let end = token_end_from(&self.text, start);
        proof {
            lemma_token_end(self.text@, start as int);
        }
        let token = slice_of(&self.text, start, end);
        match read_int(&token) {
            Some(v) => {
                self.consumed_from = Some(self.pos);
                self.pos = end;
                Ok(v)
            },
            None => Err(ParseError::Invalid),
        }
    }

    /// Moves back before the token that the last operation consumed, and
    /// says whether it moved. Directly after a rewind, or on a fresh cursor,
    /// there is no such token: the cursor stays as it is.
    pub fn rewind(&mut self) -> (moved: bool)
        requires
            old(self).wf(),
        ensures
            final(self).wf(),
            final(self)@ == old(self)@.rewind(),
            moved == old(self)@.can_rewind(),
    {
        match self.consumed_from {
            Some(p) => {
                self.pos = p;
                self.consumed_from = None;
                true
            },
            None => false,
        }
    }

    /// The unread text without the white space around it. Reads nothing.
    pub fn rest(&self) -> (r: String)
        requires
            self.wf(),
        ensures
            r@ == self@.rest(),
    {
        let start = skip_spaces_from(&self.text, self.pos);
        let end = trimmed_end_from(&self.text, start, self.text.len());
        let chars = slice_of(&self.text, start, end);
        string_of(&chars)
    }

    /// Whether no token is left.
    pub fn is_empty(&self) -> (r: bool)
        requires
            self.wf(),
        ensures
            r == !self@.has_token(),
            r == (self@.remaining() == 0),
    {
        let start = skip_spaces_from(&self.text, self.pos);
        start >= self.text.len()
    }

    /// The number of tokens left.
    pub fn len(&self) -> (n: usize)
        requires
            self.wf(),
        ensures
            n == self@.remaining(),
    {
        let mut n: usize = 0;
        let mut k: usize = self.pos;
        loop
            invariant
                self.pos <= k <= self.text.len(),
                n <= k,
                n + count_tokens(self.text@, k as int) == count_tokens(
                    self.text@,
                    self.pos as int,
                ),
            decreases self.text.len() - k,
        {
            let start = skip_spaces_from(&self.text, k);
            if start >= self.text.len() {
                return n;
            }
            let end = token_end_from(&self.text, start);
            proof {
                lemma_token_end(self.text@, start as int);
            }
            n += 1;
            k = end;
        }
    }
}

/// A rewind directly after a consume puts the cursor back where it was before
/// the consume, so that the same token is read again; a second rewind changes
/// nothing.
pub proof fn law_rewind_after_consume(c: CursorModel)
    requires
        c.wf(),
        c.has_token(),
    ensures
        c.consume().wf(),
        c.consume().can_rewind(),
        c.consume().rewind().pos == c.pos,
        c.consume().rewind().text == c.text,
        c.consume().rewind().token() == c.token(),
        c.consume().rewind().rest() == c.rest(),
        !c.consume().rewind().can_rewind(),
        c.consume().rewind().rewind() == c.consume().rewind(),
{
    lemma_skip_spaces(c.text, c.pos);
    lemma_token_end(c.text, c.token_start());
}

/// Consuming moves the position forward, behind the token and never into
/// one, and keeps the text.
pub proof fn law_consume_moves_forward(c: CursorModel)
    requires
        c.wf(),
        c.has_token(),
    ensures
        c.consume().pos > c.pos,
        c.consume().text == c.text,
        c.consume().wf(),
{
    lemma_skip_spaces(c.text, c.pos);
    lemma_token_end(c.text, c.token_start());
}

/// A cursor that cannot rewind is left as it is by a rewind.
pub proof fn law_rewind_without_consume(c: CursorModel)
    requires
        !c.can_rewind(),
    ensures
        c.rewind() == c,
{
}

/// Consuming a token takes exactly one from the count of those left, and a
/// cursor has a token left exactly if that count is not zero.
pub proof fn law_consume_counts(c: CursorModel)
    requires
        c.wf(),
    ensures
        c.has_token() <==> c.remaining() > 0,
        c.has_token() ==> c.consume().remaining() + 1 == c.remaining(),
{
    lemma_skip_spaces(c.text, c.pos);
}

/// Over a text of white space alone, and so over the empty text, no token is
/// left and the rest is empty.
pub proof fn law_blank_text(text: Seq<char>)
    requires
        forall|i: int| 0 <= i < text.len() ==> is_space(#[trigger] text[i]),
    ensures
        !CursorModel::start(text).has_token(),
        CursorModel::start(text).remaining() == 0,
        CursorModel::start(text).rest() == Seq::<char>::empty(),
{
    lemma_blank_skips(text, 0);
}

proof fn lemma_blank_skips(text: Seq<char>, i: int)
    requires
        0 <= i <= text.len(),
        forall|k: int| 0 <= k < text.len() ==> is_space(#[trigger] text[k]),
    ensures
        skip_spaces(text, i) == text.len(),
    decreases text.len() - i,
{
    if i < text.len() {
        lemma_blank_skips(text, i + 1);
    }
}

} // verus!
