use crate::location::Location;
use vstd::prelude::*;

verus! {

/// What sort of token a token is.
#[derive(Clone, Copy, Debug, PartialEq, Eq, Structural)]
pub enum TokenKind {
    /// A word: an identifier or a keyword.
    Ident,
    /// One punctuation character.
    Punct,
    /// A literal.
    Literal,
    /// A delimited group, taken as one token with all that it encloses.
    Group,
}

/// One token of a marker's argument list.
#[derive(Debug, PartialEq, Eq)]
pub struct Token {
    pub kind: TokenKind,
    /// The token as it is written.
    pub text: String,
    pub at: Location,
}

pub struct TokenView {
    pub kind: TokenKind,
    pub text: Seq<char>,
    pub at: Location,
}

impl View for Token {
    type V = TokenView;

    open spec fn view(&self) -> TokenView {
        TokenView { kind: self.kind, text: self.text@, at: self.at }
    }
}

impl DeepView for Token {
    type V = TokenView;

    open spec fn deep_view(&self) -> TokenView {
        self@
    }
}

impl Clone for Token {
    fn clone(&self) -> (copy: Token)
        ensures
            copy@ == self@,
    {
        Token { kind: self.kind, text: self.text.clone(), at: self.at }
    }
}

impl TokenView {
    /// The token is the word `word`.
    pub open spec fn is_word(self, word: Seq<char>) -> bool {
        self.kind is Ident && self.text == word
    }

    /// The token is the punctuation `mark`.
    pub open spec fn is_punct(self, mark: Seq<char>) -> bool {
        self.kind is Punct && self.text == mark
    }
}

/// The texts of `tokens` in a row, with one space between neighbours.
pub open spec fn joined(tokens: Seq<TokenView>) -> Seq<char>
    decreases tokens.len(),
{
    if tokens.len() == 0 {
        Seq::empty()
    } else if tokens.len() == 1 {
        tokens[0].text
    } else {
        joined(tokens.drop_last()) + " "@ + tokens.last().text
    }
}

/// How many tokens stand at `from` and after it before the next comma, or
/// before the end where no comma follows.
pub open spec fn run_length(tokens: Seq<TokenView>, from: int) -> nat
    decreases tokens.len() - from,
{
    if from < 0 || from >= tokens.len() || tokens[from].is_punct(","@) {
        0
    } else {
        1 + run_length(tokens, from + 1)
    }
}

impl Token {
    pub fn new(kind: TokenKind, text: &str, at: Location) -> (token: Token)
        ensures
            token@ == (TokenView { kind, text: text@, at }),
    {
        Token { kind, text: String::from_str(text), at }
    }

    /// The word `text`.
    pub fn ident(text: &str, at: Location) -> (token: Token)
        ensures
            token@ == (TokenView { kind: TokenKind::Ident, text: text@, at }),
    {
        Token::new(TokenKind::Ident, text, at)
    }

    /// The punctuation `text`.
    pub fn punct(text: &str, at: Location) -> (token: Token)
        ensures
            token@ == (TokenView { kind: TokenKind::Punct, text: text@, at }),
    {
        Token::new(TokenKind::Punct, text, at)
    }

    /// The literal `text`.
    pub fn literal(text: &str, at: Location) -> (token: Token)
        ensures
            token@ == (TokenView { kind: TokenKind::Literal, text: text@, at }),
    {
        Token::new(TokenKind::Literal, text, at)
    }

    /// The group `text`, delimiters included.
    pub fn group(text: &str, at: Location) -> (token: Token)
        ensures
            token@ == (TokenView { kind: TokenKind::Group, text: text@, at }),
    {
        Token::new(TokenKind::Group, text, at)
    }

    /// Whether the token is the word `word`.
    pub fn is_word(&self, word: &str) -> (yes: bool)
        ensures
            yes == self@.is_word(word@),
    {
        match self.kind {
            TokenKind::Ident => self.text == String::from_str(word),
            _ => false,
        }
    }

    /// Whether the token is the punctuation `mark`.
    pub fn is_punct(&self, mark: &str) -> (yes: bool)
        ensures
            yes == self@.is_punct(mark@),
    {
        match self.kind {
            TokenKind::Punct => self.text == String::from_str(mark),
            _ => false,
        }
    }
}

/// A run ends inside the list, and where it ends before the last token, it
/// ends at a comma.
pub proof fn lemma_run_stays_inside(tokens: Seq<TokenView>, from: int)
    requires
        0 <= from <= tokens.len(),
    ensures
        from + run_length(tokens, from) <= tokens.len(),
        from + run_length(tokens, from) < tokens.len() ==> tokens[from + run_length(
            tokens,
            from,
        )].is_punct(","@),
    decreases tokens.len() - from,
{
    if from < tokens.len() && !tokens[from].is_punct(","@) {
        lemma_run_stays_inside(tokens, from + 1);
    }
}

/// The index of the first comma at `from` or after it, or the number of
/// tokens where there is none.
pub fn run_end(tokens: &Vec<Token>, from: usize) -> (end: usize)
    ensures
        end == from + run_length(tokens.deep_view(), from as int),
        from <= tokens.len() ==> end <= tokens.len(),
{
    let mut end: usize = from;
    while end < tokens.len() && !tokens[end].is_punct(",")
        invariant
            from <= end,
            from <= tokens.len() ==> end <= tokens.len(),
            from + run_length(tokens.deep_view(), from as int) == end + run_length(
                tokens.deep_view(),
                end as int,
            ),
        decreases tokens.len() - end,
    {
        end = end + 1;
    }
    end
}

/// The text of the tokens from `from` up to `to`, joined by single spaces.
pub fn join(tokens: &Vec<Token>, from: usize, to: usize) -> (text: String)
    ensures
        from <= to <= tokens.len() ==> text@ == joined(
            tokens.deep_view().subrange(from as int, to as int),
        ),
        !(from <= to <= tokens.len()) ==> text@ == Seq::<char>::empty(),
{
    let mut text = String::new();
    if !(from <= to && to <= tokens.len()) {
        return text;
    }
    let ghost all = tokens.deep_view();
    let mut next: usize = from;
    while next < to
        invariant
            from <= next <= to <= tokens.len(),
            all == tokens.deep_view(),
            text@ == joined(all.subrange(from as int, next as int)),
        decreases to - next,
    {
        if next > from {
            text.append(" ");
        }
        text.append(tokens[next].text.as_str());
        proof {
            let before = all.subrange(from as int, next as int);
            let after = all.subrange(from as int, next + 1);
            assert(after.drop_last() =~= before);
            assert(after.last() == all[next as int]);
        }
        next = next + 1;
    }
    text
}

} // verus!
