//! The tokens of a selector, and a cursor over them.

use vstd::prelude::*;

verus! {

/// The brackets around a group of tokens.
#[derive(Debug, Clone, Copy, PartialEq, Eq, Structural)]
pub enum Delimiter {
    /// `( ... )`
    Parenthesis,
    /// `{ ... }`
    Brace,
    /// `[ ... ]`
    Bracket,
    /// No brackets: a group that only holds tokens together.
    Invisible,
}

/// One token, or a bracketed group of tokens.
#[derive(Debug)]
pub enum TokenTree {
    /// A group of tokens in brackets.
    Group(Delimiter, Vec<TokenTree>),
    /// A word.
    Ident(String),
    /// A single punctuation character.
    Punct(char),
    /// A literal, as it is written.
    Literal(String),
}

/// What a token holds, with its texts as sequences of characters.
pub enum TokenView {
    Group(Delimiter, Seq<TokenView>),
    Ident(Seq<char>),
    Punct(char),
    Literal(Seq<char>),
}

/// What a token holds.
pub open spec fn spec_token_view(token: TokenTree) -> TokenView
    decreases token,
{
    match token {
        TokenTree::Group(delimiter, inner) => TokenView::Group(delimiter, spec_views(inner@)),
        TokenTree::Ident(word) => TokenView::Ident(word@),
        TokenTree::Punct(c) => TokenView::Punct(c),
        TokenTree::Literal(text) => TokenView::Literal(text@),
    }
}

/// What each of the tokens holds.
pub open spec fn spec_views(tokens: Seq<TokenTree>) -> Seq<TokenView>
    decreases tokens,
{
    if tokens.len() == 0 {
        Seq::empty()
    } else {
        spec_views(tokens.drop_last()).push(spec_token_view(tokens.last()))
    }
}

impl View for TokenTree {
    type V = TokenView;

    open spec fn view(&self) -> TokenView {
        spec_token_view(*self)
    }
}

/// The views of tokens are as many as the tokens, each the view of its
/// token.
pub proof fn lemma_views(tokens: Seq<TokenTree>)
    ensures
        spec_views(tokens).len() == tokens.len(),
        forall|i: int| 0 <= i < tokens.len() ==> spec_views(tokens)[i] == spec_token_view(
            #[trigger] tokens[i],
        ),
    decreases tokens.len(),
{
    if tokens.len() > 0 {
        lemma_views(tokens.drop_last());
        assert forall|i: int| 0 <= i < tokens.len() implies spec_views(tokens)[i]
            == spec_token_view(#[trigger] tokens[i]) by {
            if i < tokens.len() - 1 {
                assert(tokens.drop_last()[i] == tokens[i]);
            }
        }
    }
}

/// The views of tokens with one more token at the end.
pub proof fn lemma_views_push(tokens: Seq<TokenTree>, token: TokenTree)
    ensures
        spec_views(tokens.push(token)) == spec_views(tokens).push(spec_token_view(token)),
{
    assert(tokens.push(token).drop_last() =~= tokens);
}

/// The views of two lists of tokens, one after the other.
pub proof fn lemma_views_add(front: Seq<TokenTree>, back: Seq<TokenTree>)
    ensures
        spec_views(front + back) == spec_views(front) + spec_views(back),
{
    lemma_views(front);
    lemma_views(back);
    lemma_views(front + back);
    let whole = spec_views(front + back);
    let parts = spec_views(front) + spec_views(back);
    assert forall|i: int| 0 <= i < whole.len() implies whole[i] == parts[i] by {
        assert(whole[i] == spec_token_view((front + back)[i]));
        if i < front.len() {
            assert(parts[i] == spec_token_view(front[i]));
        } else {
            assert(parts[i] == spec_token_view(back[i - front.len()]));
        }
    }
    assert(whole =~= parts);
}

/// A copy of a token.
pub fn clone_token(token: &TokenTree) -> (copy: TokenTree)
    ensures
        copy@ == token@,
    decreases token,
{
    match token {
        TokenTree::Group(delimiter, inner) => TokenTree::Group(*delimiter, clone_tokens(inner)),
        TokenTree::Ident(word) => TokenTree::Ident(word.clone()),
        TokenTree::Punct(c) => TokenTree::Punct(*c),
        TokenTree::Literal(text) => TokenTree::Literal(text.clone()),
    }
}

/// A copy of a list of tokens.
pub fn clone_tokens(tokens: &Vec<TokenTree>) -> (copy: Vec<TokenTree>)
    ensures
        spec_views(copy@) == spec_views(tokens@),
    decreases tokens@,
{
    let mut copy: Vec<TokenTree> = Vec::new();
    let mut i: usize = 0;
    assert(tokens@.take(0) =~= Seq::<TokenTree>::empty());
    while i < tokens.len()
        invariant
            i <= tokens@.len(),
            spec_views(copy@) == spec_views(tokens@.take(i as int)),
        decreases tokens@.len() - i,
    {
        let token = clone_token(&tokens[i]);
        proof {
            lemma_views_push(copy@, token);
            lemma_views_push(tokens@.take(i as int), tokens@[i as int]);
            assert(tokens@.take(i as int).push(tokens@[i as int]) =~= tokens@.take(i + 1));
        }
        copy.push(token);
        i += 1;
    }
    assert(tokens@.take(i as int) =~= tokens@);
    copy
}

/// What went wrong when a selector was read.
#[derive(Debug, Clone, Copy, PartialEq, Eq)]
pub struct SelectorError {
    /// What was expected.
    pub message: &'static str,
}

impl TokenTree {
    /// Whether the token is the punctuation character `ch`.
    pub open spec fn spec_is_punct(self, ch: char) -> bool {
        self matches TokenTree::Punct(c) && c == ch
    }

    /// Whether the token is the word `word`.
    pub open spec fn spec_is_ident(self, word: Seq<char>) -> bool {
        self matches TokenTree::Ident(w) && w@ == word
    }
}

/// A cursor over a list of tokens.
pub struct Iter<'a> {
    tokens: &'a Vec<TokenTree>,
    pos: usize,
}

impl<'a> Iter<'a> {
    #[verifier::type_invariant]
    closed spec fn wf(self) -> bool {
        self.pos <= self.tokens@.len()
    }

    /// The tokens that the cursor runs over.
    pub closed spec fn spec_tokens(self) -> Seq<TokenTree> {
        self.tokens@
    }

    /// The place of the next token.
    pub closed spec fn spec_pos(self) -> int {
        self.pos as int
    }

    /// A cursor at the first of the tokens.
    pub fn new(tokens: &'a Vec<TokenTree>) -> (iter: Iter<'a>)
        ensures
            iter.spec_tokens() == tokens@,
            iter.spec_pos() == 0,
    {
        Iter { tokens, pos: 0 }
    }

    /// The place of the next token, which is never beyond the end.
    pub fn pos(&self) -> (pos: usize)
        ensures
            pos == self.spec_pos(),
            pos <= self.spec_tokens().len(),
    {
        proof {
            use_type_invariant(self);
        }
        self.pos
    }

    /// The next token, without moving on.
    pub fn peek(&self) -> (token: Option<&'a TokenTree>)
        ensures
            0 <= self.spec_pos() <= self.spec_tokens().len(),
            token is Some <==> self.spec_pos() < self.spec_tokens().len(),
            token matches Some(t) ==> *t == self.spec_tokens()[self.spec_pos()],
    {
        proof {
            use_type_invariant(self);
        }
        if self.pos < self.tokens.len() {
            Some(&self.tokens[self.pos])
        } else {
            None
        }
    }

    /// The next token; the cursor moves past it.
    pub fn next(&mut self) -> (token: Option<&'a TokenTree>)
        ensures
            final(self).spec_tokens() == old(self).spec_tokens(),
            0 <= old(self).spec_pos() <= old(self).spec_tokens().len(),
            token is Some <==> old(self).spec_pos() < old(self).spec_tokens().len(),
            token matches Some(t) ==> *t == old(self).spec_tokens()[old(self).spec_pos()]
                && final(self).spec_pos() == old(self).spec_pos() + 1,
            token is None ==> final(self).spec_pos() == old(self).spec_pos(),
    {
        proof {
            use_type_invariant(&*self);
        }
        if self.pos < self.tokens.len() {
            let token = &self.tokens[self.pos];
            self.pos = self.pos + 1;
            Some(token)
        } else {
            None
        }
    }
}

/// The tokens of the group in parentheses at a place, if there is one.
pub open spec fn spec_paren(tokens: Seq<TokenTree>, pos: int) -> Option<Vec<TokenTree>> {
    if 0 <= pos < tokens.len() {
        match tokens[pos] {
            TokenTree::Group(Delimiter::Parenthesis, inner) => Some(inner),
            _ => None,
        }
    } else {
        None
    }
}

/// The text of the literal at a place, if there is one.
pub open spec fn spec_literal(tokens: Seq<TokenTree>, pos: int) -> Option<Seq<char>> {
    if 0 <= pos < tokens.len() {
        match tokens[pos] {
            TokenTree::Literal(text) => Some(text@),
            _ => None,
        }
    } else {
        None
    }
}

/// Whether the token at a place is the punctuation character `ch`.
pub open spec fn spec_punct_at(tokens: Seq<TokenTree>, pos: int, ch: char) -> bool {
    0 <= pos < tokens.len() && tokens[pos].spec_is_punct(ch)
}

/// Takes the group in parentheses that has to come next.
pub fn parse_paren<'a>(iter: &mut Iter<'a>) -> (result: Result<&'a Vec<TokenTree>, SelectorError>)
    ensures
        final(iter).spec_tokens() == old(iter).spec_tokens(),
        result is Ok <==> spec_paren(old(iter).spec_tokens(), old(iter).spec_pos()) is Some,
        result matches Ok(inner) ==> spec_paren(old(iter).spec_tokens(), old(iter).spec_pos())
            == Some(*inner) && final(iter).spec_pos() == old(iter).spec_pos() + 1,
{
    match iter.next() {
        Some(TokenTree::Group(Delimiter::Parenthesis, inner)) => Ok(inner),
        _ => Err(SelectorError { message: "expected `(`" }),
    }
}

/// Takes the literal that has to come next.
pub fn parse_literal<'a>(iter: &mut Iter<'a>) -> (result: Result<&'a str, SelectorError>)
    ensures
        final(iter).spec_tokens() == old(iter).spec_tokens(),
        result is Ok <==> spec_literal(old(iter).spec_tokens(), old(iter).spec_pos()) is Some,
        result matches Ok(text) ==> spec_literal(old(iter).spec_tokens(), old(iter).spec_pos())
            == Some(text@) && final(iter).spec_pos() == old(iter).spec_pos() + 1,
{
    match iter.next() {
        Some(TokenTree::Literal(text)) => Ok(text.as_str()),
        _ => Err(SelectorError { message: "expected literal" }),
    }
}

/// Takes the punctuation character `ch` if it comes next, and says whether
/// it did.
pub fn parse_optional_punct(iter: &mut Iter<'_>, ch: char) -> (found: bool)
    ensures
        final(iter).spec_tokens() == old(iter).spec_tokens(),
        found == spec_punct_at(old(iter).spec_tokens(), old(iter).spec_pos(), ch),
        final(iter).spec_pos() == old(iter).spec_pos() + (if found {
            1int
        } else {
            0int
        }),
{
    match iter.peek() {
        Some(TokenTree::Punct(c)) => {
            if *c == ch {
                let _ = iter.next();
                true
            } else {
                false
            }
        },
        _ => false,
    }
}

/// Takes the punctuation character `ch`, which has to come next.
pub fn parse_punct(iter: &mut Iter<'_>, ch: char) -> (result: Result<(), SelectorError>)
    ensures
        final(iter).spec_tokens() == old(iter).spec_tokens(),
        result is Ok <==> spec_punct_at(old(iter).spec_tokens(), old(iter).spec_pos(), ch),
        result is Ok ==> final(iter).spec_pos() == old(iter).spec_pos() + 1,
{
    match iter.next() {
        Some(TokenTree::Punct(c)) => {
            if *c == ch {
                Ok(())
            } else {
                Err(SelectorError { message: "unexpected punctuation" })
            }
        },
        _ => Err(SelectorError { message: "expected punctuation" }),
    }
}

/// Makes sure that no token is left.
pub fn parse_end(iter: &mut Iter<'_>) -> (result: Result<(), SelectorError>)
    ensures
        final(iter).spec_tokens() == old(iter).spec_tokens(),
        0 <= old(iter).spec_pos() <= old(iter).spec_tokens().len(),
        result is Ok <==> old(iter).spec_pos() == old(iter).spec_tokens().len(),
        result is Ok ==> final(iter).spec_pos() == old(iter).spec_pos(),
{
    match iter.next() {
        None => Ok(()),
        Some(_) => Err(SelectorError { message: "unexpected token" }),
    }
}

} // verus!
