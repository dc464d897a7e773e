//! Selectors and their evaluation.

use vstd::prelude::*;
use crate::util::text::same_text;
use crate::version::release::{spec_release_at, Release};
use crate::version::token::{
    parse_end, parse_optional_punct, parse_paren, parse_punct, spec_punct_at, Delimiter, Iter,
    SelectorError, TokenTree,
};
use crate::version::version::Version;

verus! {

/// A selector.
#[derive(Debug)]
pub enum Expr {
    /// Holds from the release on.
    Since(Release),
    /// Holds before the release.
    Before(Release),
    /// Holds where the inner selector does not.
    Not(Box<Expr>),
    /// Holds where one of the selectors does.
    Any(Vec<Expr>),
    /// Holds where each of the selectors does.
    All(Vec<Expr>),
}

impl Expr {
    /// Whether the selector holds for the version of the library.
    pub open spec fn spec_eval(self, library: Version) -> bool
        decreases self,
    {
        match self {
            Expr::Since(bound) => library.spec_since(bound),
            Expr::Before(bound) => library.spec_before(bound),
            Expr::Not(expr) => !expr.spec_eval(library),
            Expr::Any(exprs) => exists|i: int|
                0 <= i < exprs@.len() && (#[trigger] exprs@[i]).spec_eval(library),
            Expr::All(exprs) => forall|i: int|
                0 <= i < exprs@.len() ==> (#[trigger] exprs@[i]).spec_eval(library),
        }
    }

    /// Tells whether the selector holds for the version of the library.
    #[verifier::loop_isolation(false)]
    pub fn eval(&self, library: Version) -> (holds: bool)
        ensures
            holds == self.spec_eval(library),
        decreases self,
    {
        match self {
            Expr::Since(bound) => library.since(bound),
            Expr::Before(bound) => library.before(bound),
            Expr::Not(expr) => !expr.eval(library),
            Expr::Any(exprs) => {
                let mut i: usize = 0;
                while i < exprs.len()
                    invariant
                        i <= exprs@.len(),
                        forall|j: int| 0 <= j < i ==> !(#[trigger] exprs@[j]).spec_eval(library),
                    decreases exprs@.len() - i,
                {
                    if exprs[i].eval(library) {
                        return true;
                    }
                    i += 1;
                }
                false
            },
            Expr::All(exprs) => {
                let mut i: usize = 0;
                while i < exprs.len()
                    invariant
                        i <= exprs@.len(),
                        forall|j: int| 0 <= j < i ==> (#[trigger] exprs@[j]).spec_eval(library),
                    decreases exprs@.len() - i,
                {
                    if !exprs[i].eval(library) {
                        return false;
                    }
                    i += 1;
                }
                true
            },
        }
    }
}

/// Whether one of the selectors holds.
pub open spec fn spec_any_holds(exprs: Seq<Expr>, library: Version) -> bool {
    exists|i: int| 0 <= i < exprs.len() && (#[trigger] exprs[i]).spec_eval(library)
}

/// Whether each of the selectors holds.
pub open spec fn spec_all_hold(exprs: Seq<Expr>, library: Version) -> bool {
    forall|i: int| 0 <= i < exprs.len() ==> (#[trigger] exprs[i]).spec_eval(library)
}

/// Whether nothing but a comma at the very end follows a place.
pub open spec fn spec_closes(tokens: Seq<TokenTree>, pos: int) -> bool {
    pos == tokens.len() || (spec_punct_at(tokens, pos, ',') && pos + 1 == tokens.len())
}

/// The release that the tokens between the parentheses of `since` or
/// `before` spell.
pub open spec fn spec_release_in(inner: Seq<TokenTree>) -> Option<Release> {
    match spec_release_at(inner, 0) {
        Some((release, end)) => if spec_closes(inner, end) {
            Some(release)
        } else {
            None
        },
        None => None,
    }
}

/// Whether the selector that starts at a place of the tokens holds for the
/// version of the library; nothing if no selector starts there.
///
/// A selector is one of the words `since`, `before`, `not`, `any` and `all`
/// with a group in parentheses after it. The group of `since` and `before`
/// holds a release, that of `not` one selector, that of `any` and `all` a
/// list of selectors.
pub open spec fn spec_selector(tokens: Seq<TokenTree>, pos: int, library: Version) -> Option<bool>
    decreases tokens, 0nat, 0nat,
{
    if 0 <= pos && pos + 1 < tokens.len() {
        match (tokens[pos], tokens[pos + 1]) {
            (TokenTree::Ident(word), TokenTree::Group(Delimiter::Parenthesis, inner)) => {
                if word@ == "since"@ {
                    match spec_release_in(inner@) {
                        Some(release) => Some(library.spec_since(release)),
                        None => None,
                    }
                } else if word@ == "before"@ {
                    match spec_release_in(inner@) {
                        Some(release) => Some(library.spec_before(release)),
                        None => None,
                    }
                } else if word@ == "not"@ {
                    match spec_selector(inner@, 0, library) {
                        Some(holds) => if spec_closes(inner@, 2) {
                            Some(!holds)
                        } else {
                            None
                        },
                        None => None,
                    }
                } else if word@ == "any"@ {
                    match spec_list(inner@, 0, library) {
                        Some((any, all)) => Some(any),
                        None => None,
                    }
                } else if word@ == "all"@ {
                    match spec_list(inner@, 0, library) {
                        Some((any, all)) => Some(all),
                        None => None,
                    }
                } else {
                    None
                }
            },
            _ => None,
        }
    } else {
        None
    }
}

/// Whether one, and whether each, of the selectors holds that run from a
/// place of the tokens to their end with commas between them; nothing if
/// the tokens are no such list. A comma may follow the last selector.
pub open spec fn spec_list(tokens: Seq<TokenTree>, pos: int, library: Version) -> Option<
    (bool, bool),
>
    decreases tokens, 1nat, tokens.len() - pos,
{
    if pos < 0 {
        None
    } else if pos >= tokens.len() {
        Some((false, true))
    } else {
        match spec_selector(tokens, pos, library) {
            None => None,
            Some(holds) => if pos + 2 >= tokens.len() {
                Some((holds, holds))
            } else if tokens[pos + 2].spec_is_punct(',') {
                match spec_list(tokens, pos + 3, library) {
                    Some((any, all)) => Some((holds || any, holds && all)),
                    None => None,
                }
            } else {
                None
            },
        }
    }
}

/// Whether the result of reading a selector is what the tokens say: the
/// selector that holds exactly where the tokens say so, or an error if no
/// selector starts at the place.
pub open spec fn spec_parsed(
    tokens: Seq<TokenTree>,
    pos: int,
    result: Result<Expr, SelectorError>,
) -> bool {
    forall|library: Version| #[trigger]
        spec_selector(tokens, pos, library) == (match result {
            Ok(expr) => Some(expr.spec_eval(library)),
            Err(_) => None,
        })
}

/// Whether the result of reading a list of selectors is what the tokens
/// say.
pub open spec fn spec_listed(
    tokens: Seq<TokenTree>,
    pos: int,
    result: Result<Vec<Expr>, SelectorError>,
) -> bool {
    forall|library: Version| #[trigger]
        spec_list(tokens, pos, library) == (match result {
            Ok(exprs) => Some((spec_any_holds(exprs@, library), spec_all_hold(exprs@, library))),
            Err(_) => None,
        })
}

/// Whether the word before a place of the tokens is `word`.
pub open spec fn spec_introduced(tokens: Seq<TokenTree>, pos: int, word: Seq<char>) -> bool {
    1 <= pos <= tokens.len() && tokens[pos - 1].spec_is_ident(word)
}

/// The five words that start a selector are five different words.
proof fn lemma_words_differ()
    ensures
        "since"@ != "before"@,
        "since"@ != "not"@,
        "since"@ != "any"@,
        "since"@ != "all"@,
        "before"@ != "not"@,
        "before"@ != "any"@,
        "before"@ != "all"@,
        "not"@ != "any"@,
        "not"@ != "all"@,
        "any"@ != "all"@,
{
    reveal_strlit("since");
    reveal_strlit("before");
    reveal_strlit("not");
    reveal_strlit("any");
    reveal_strlit("all");
    assert("since"@.len() == 5);
    assert("before"@.len() == 6);
    assert("not"@.len() == 3);
    assert("any"@[0] == 'a');
    assert("not"@[0] == 'n');
    assert("any"@[1] == 'n');
    assert("all"@[1] == 'l');
}

/// A list selector holds as its list does.
pub proof fn lemma_eval_list(exprs: Vec<Expr>, library: Version)
    ensures
        Expr::Any(exprs).spec_eval(library) == spec_any_holds(exprs@, library),
        Expr::All(exprs).spec_eval(library) == spec_all_hold(exprs@, library),
{
    let any = Expr::Any(exprs);
    let all = Expr::All(exprs);
    assert(any->Any_0 == exprs);
    assert(all->All_0 == exprs);
    if any.spec_eval(library) {
        let i = choose|i: int|
            0 <= i < any->Any_0@.len() && (#[trigger] any->Any_0@[i]).spec_eval(library);
        assert(exprs@[i].spec_eval(library));
    }
    if spec_any_holds(exprs@, library) {
        let i = choose|i: int| 0 <= i < exprs@.len() && (#[trigger] exprs@[i]).spec_eval(library);
        assert(any->Any_0@[i].spec_eval(library));
    }
    if all.spec_eval(library) {
        assert forall|i: int| 0 <= i < exprs@.len() implies (#[trigger] exprs@[i]).spec_eval(
            library,
        ) by {
            assert(all->All_0@[i].spec_eval(library));
        }
    }
    if spec_all_hold(exprs@, library) {
        assert forall|i: int| 0 <= i < all->All_0@.len() implies (#[trigger] all->All_0@[i]).spec_eval(
            library,
        ) by {
            assert(exprs@[i].spec_eval(library));
        }
    }
}

/// Reads the selector that comes next.
pub fn parse(iter: &mut Iter<'_>) -> (result: Result<Expr, SelectorError>)
    ensures
        final(iter).spec_tokens() == old(iter).spec_tokens(),
        spec_parsed(old(iter).spec_tokens(), old(iter).spec_pos(), result),
        result is Ok ==> final(iter).spec_pos() == old(iter).spec_pos() + 2,
    decreases old(iter).spec_tokens(), 2nat,
{
    match iter.next() {
        Some(TokenTree::Ident(word)) => {
            let word = word.as_str();
            if same_text(word, "since") {
                parse_since(iter)
            } else if same_text(word, "before") {
                parse_before(iter)
            } else if same_text(word, "not") {
                parse_not(iter)
            } else if same_text(word, "any") {
                parse_any(iter)
            } else if same_text(word, "all") {
                parse_all(iter)
            } else {
                Err(
                    SelectorError {
                        message: "expected one of `since`, `before`, `not`, `any`, `all`",
                    },
                )
            }
        },
        _ => Err(
            SelectorError { message: "expected one of `since`, `before`, `not`, `any`, `all`" },
        ),
    }
}

/// Reads the release in parentheses that comes next.
fn parse_release(iter: &mut Iter<'_>) -> (result: Result<Release, SelectorError>)
    ensures
        final(iter).spec_tokens() == old(iter).spec_tokens(),
        match crate::version::token::spec_paren(old(iter).spec_tokens(), old(iter).spec_pos()) {
            Some(inner) => match spec_release_in(inner@) {
                Some(release) => result == Ok::<Release, SelectorError>(release),
                None => result is Err,
            },
            None => result is Err,
        },
        result is Ok ==> final(iter).spec_pos() == old(iter).spec_pos() + 1,
{
    let paren = match parse_paren(iter) {
        Ok(paren) => paren,
        Err(e) => {
            return Err(e);
        },
    };
    let mut inner = Iter::new(paren);
    let release = match crate::version::release::parse(&mut inner) {
        Ok(release) => release,
        Err(e) => {
            return Err(e);
        },
    };
    let _ = parse_optional_punct(&mut inner, ',');
    match parse_end(&mut inner) {
        Ok(()) => Ok(release),
        Err(e) => Err(e),
    }
}

/// Reads what follows the word `since`.
fn parse_since(iter: &mut Iter<'_>) -> (result: Result<Expr, SelectorError>)
    requires
        spec_introduced(old(iter).spec_tokens(), old(iter).spec_pos(), "since"@),
    ensures
        final(iter).spec_tokens() == old(iter).spec_tokens(),
        spec_parsed(old(iter).spec_tokens(), old(iter).spec_pos() - 1, result),
        result is Ok ==> final(iter).spec_pos() == old(iter).spec_pos() + 1,
{
    match parse_release(iter) {
        Ok(release) => Ok(Expr::Since(release)),
        Err(e) => Err(e),
    }
}

/// Reads what follows the word `before`.
fn parse_before(iter: &mut Iter<'_>) -> (result: Result<Expr, SelectorError>)
    requires
        spec_introduced(old(iter).spec_tokens(), old(iter).spec_pos(), "before"@),
    ensures
        final(iter).spec_tokens() == old(iter).spec_tokens(),
        spec_parsed(old(iter).spec_tokens(), old(iter).spec_pos() - 1, result),
        result is Ok ==> final(iter).spec_pos() == old(iter).spec_pos() + 1,
{
    proof {
        lemma_words_differ();
    }
    match parse_release(iter) {
        Ok(release) => Ok(Expr::Before(release)),
        Err(e) => Err(e),
    }
}

/// What a selector says, in terms of the two tokens that it is made of.
proof fn lemma_selector(tokens: Seq<TokenTree>, pos: int, library: Version)
    requires
        0 <= pos,
    ensures
        spec_selector(tokens, pos, library) == (if pos + 1 < tokens.len() && tokens[pos] is Ident
            && tokens[pos + 1] is Group && tokens[pos + 1]->Group_0 == Delimiter::Parenthesis {
            let word = tokens[pos]->Ident_0@;
            let inner = tokens[pos + 1]->Group_1@;
            if word == "since"@ {
                match spec_release_in(inner) {
                    Some(release) => Some(library.spec_since(release)),
                    None => None,
                }
            } else if word == "before"@ {
                match spec_release_in(inner) {
                    Some(release) => Some(library.spec_before(release)),
                    None => None,
                }
            } else if word == "not"@ {
                match spec_selector(inner, 0, library) {
                    Some(holds) => if spec_closes(inner, 2) {
                        Some(!holds)
                    } else {
                        None
                    },
                    None => None,
                }
            } else if word == "any"@ {
                match spec_list(inner, 0, library) {
                    Some((any, all)) => Some(any),
                    None => None,
                }
            } else if word == "all"@ {
                match spec_list(inner, 0, library) {
                    Some((any, all)) => Some(all),
                    None => None,
                }
            } else {
                None
            }
        } else {
            None
        }),
{
}

/// Reads what follows the word `not`.
fn parse_not(iter: &mut Iter<'_>) -> (result: Result<Expr, SelectorError>)
    requires
        spec_introduced(old(iter).spec_tokens(), old(iter).spec_pos(), "not"@),
    ensures
        final(iter).spec_tokens() == old(iter).spec_tokens(),
        spec_parsed(old(iter).spec_tokens(), old(iter).spec_pos() - 1, result),
        result is Ok ==> final(iter).spec_pos() == old(iter).spec_pos() + 1,
    decreases old(iter).spec_tokens(), 0nat,
{
    let ghost tokens = iter.spec_tokens();
    let ghost pos = iter.spec_pos();
    proof {
        lemma_words_differ();
        assert forall|library: Version| #[trigger]
            spec_selector(tokens, pos - 1, library) == (if pos < tokens.len() && tokens[pos]
                is Group && tokens[pos]->Group_0 == Delimiter::Parenthesis {
                let inner = tokens[pos]->Group_1@;
                match spec_selector(inner, 0, library) {
                    Some(holds) => if spec_closes(inner, 2) {
                        Some(!holds)
                    } else {
                        None
                    },
                    None => None,
                }
            } else {
                None
            }) by {
            lemma_selector(tokens, pos - 1, library);
        }
    }
    let paren = match parse_paren(iter) {
        Ok(paren) => paren,
        Err(e) => {
            return Err(e);
        },
    };
    assert(tokens[pos]->Group_1 == *paren);
    let mut inner = Iter::new(paren);
    let parsed = self::parse(&mut inner);
    proof {
        assert forall|library: Version|
            spec_selector(paren@, 0, library) == (match parsed {
                Ok(expr) => Some(expr.spec_eval(library)),
                Err(_) => None,
            }) by {
            assert(spec_parsed(paren@, 0, parsed));
        }
    }
    let expr = match parsed {
        Ok(expr) => expr,
        Err(e) => {
            return Err(e);
        },
    };
    let _ = parse_optional_punct(&mut inner, ',');
    match parse_end(&mut inner) {
        Ok(()) => Ok(Expr::Not(Box::new(expr))),
        Err(e) => Err(e),
    }
}

/// Reads the list of selectors in parentheses that comes next.
fn parse_list(iter: &mut Iter<'_>) -> (result: Result<Vec<Expr>, SelectorError>)
    ensures
        final(iter).spec_tokens() == old(iter).spec_tokens(),
        result is Ok ==> final(iter).spec_pos() == old(iter).spec_pos() + 1,
        0 <= old(iter).spec_pos(),
        forall|library: Version|
            (if old(iter).spec_pos() < old(iter).spec_tokens().len() && old(
                iter,
            ).spec_tokens()[old(iter).spec_pos()] is Group && old(iter).spec_tokens()[old(
                iter,
            ).spec_pos()]->Group_0 == Delimiter::Parenthesis {
                #[trigger] spec_list(
                    old(iter).spec_tokens()[old(iter).spec_pos()]->Group_1@,
                    0,
                    library,
                )
            } else {
                None
            }) == (match result {
                Ok(exprs) => Some(
                    (spec_any_holds(exprs@, library), spec_all_hold(exprs@, library)),
                ),
                Err(_) => None,
            }),
    decreases old(iter).spec_tokens(), 0nat,
{
    let ghost tokens = iter.spec_tokens();
    let ghost pos = iter.spec_pos();
    let _ = iter.pos();
    let paren = match parse_paren(iter) {
        Ok(paren) => paren,
        Err(e) => {
            return Err(e);
        },
    };
    assert(tokens[pos]->Group_1 == *paren);
    let mut inner = Iter::new(paren);
    let listed = parse_comma_separated(&mut inner);
    proof {
        assert forall|library: Version|
            spec_list(paren@, 0, library) == (match listed {
                Ok(exprs) => Some(
                    (spec_any_holds(exprs@, library), spec_all_hold(exprs@, library)),
                ),
                Err(_) => None,
            }) by {
            assert(spec_listed(paren@, 0, listed));
        }
    }
    listed
}

/// Reads what follows the word `any`.
fn parse_any(iter: &mut Iter<'_>) -> (result: Result<Expr, SelectorError>)
    requires
        spec_introduced(old(iter).spec_tokens(), old(iter).spec_pos(), "any"@),
    ensures
        final(iter).spec_tokens() == old(iter).spec_tokens(),
        spec_parsed(old(iter).spec_tokens(), old(iter).spec_pos() - 1, result),
        result is Ok ==> final(iter).spec_pos() == old(iter).spec_pos() + 1,
    decreases old(iter).spec_tokens(), 1nat,
{
    let ghost tokens = iter.spec_tokens();
    let ghost pos = iter.spec_pos();
    proof {
        lemma_words_differ();
    }
    match parse_list(iter) {
        Ok(exprs) => {
            proof {
                assert forall|library: Version| #[trigger]
                    spec_selector(tokens, pos - 1, library) == Some(
                        Expr::Any(exprs).spec_eval(library),
                    ) by {
                    lemma_selector(tokens, pos - 1, library);
                    lemma_eval_list(exprs, library);
                    assert(spec_list(tokens[pos]->Group_1@, 0, library) is Some);
                }
            }
            Ok(Expr::Any(exprs))
        },
        Err(e) => {
            proof {
                assert forall|library: Version| #[trigger]
                    spec_selector(tokens, pos - 1, library) is None by {
                    lemma_selector(tokens, pos - 1, library);
                    if pos < tokens.len() && tokens[pos] is Group && tokens[pos]->Group_0
                        == Delimiter::Parenthesis {
                        assert(spec_list(tokens[pos]->Group_1@, 0, library) is None);
                    }
                }
            }
            Err(e)
        },
    }
}

/// Reads what follows the word `all`.
fn parse_all(iter: &mut Iter<'_>) -> (result: Result<Expr, SelectorError>)
    requires
        spec_introduced(old(iter).spec_tokens(), old(iter).spec_pos(), "all"@),
    ensures
        final(iter).spec_tokens() == old(iter).spec_tokens(),
        spec_parsed(old(iter).spec_tokens(), old(iter).spec_pos() - 1, result),
        result is Ok ==> final(iter).spec_pos() == old(iter).spec_pos() + 1,
    decreases old(iter).spec_tokens(), 1nat,
{
    let ghost tokens = iter.spec_tokens();
    let ghost pos = iter.spec_pos();
    proof {
        lemma_words_differ();
    }
    match parse_list(iter) {
        Ok(exprs) => {
            proof {
                assert forall|library: Version| #[trigger]
                    spec_selector(tokens, pos - 1, library) == Some(
                        Expr::All(exprs).spec_eval(library),
                    ) by {
                    lemma_selector(tokens, pos - 1, library);
                    lemma_eval_list(exprs, library);
                    assert(spec_list(tokens[pos]->Group_1@, 0, library) is Some);
                }
            }
            Ok(Expr::All(exprs))
        },
        Err(e) => {
            proof {
                assert forall|library: Version| #[trigger]
                    spec_selector(tokens, pos - 1, library) is None by {
                    lemma_selector(tokens, pos - 1, library);
                    if pos < tokens.len() && tokens[pos] is Group && tokens[pos]->Group_0
                        == Delimiter::Parenthesis {
                        assert(spec_list(tokens[pos]->Group_1@, 0, library) is None);
                    }
                }
            }
            Err(e)
        },
    }
}

/// What a list of selectors says, in terms of its first selector and the
/// rest.
proof fn lemma_list(tokens: Seq<TokenTree>, pos: int, library: Version)
    requires
        0 <= pos,
    ensures
        spec_list(tokens, pos, library) == (if pos >= tokens.len() {
            Some((false, true))
        } else {
            match spec_selector(tokens, pos, library) {
                None => None,
                Some(holds) => if pos + 2 >= tokens.len() {
                    Some((holds, holds))
                } else if tokens[pos + 2].spec_is_punct(',') {
                    match spec_list(tokens, pos + 3, library) {
                        Some((any, all)) => Some((holds || any, holds && all)),
                        None => None,
                    }
                } else {
                    None
                },
            }
        }),
{
}

/// Reads selectors with commas between them up to the end of the tokens.
pub fn parse_comma_separated(iter: &mut Iter<'_>) -> (result: Result<Vec<Expr>, SelectorError>)
    ensures
        final(iter).spec_tokens() == old(iter).spec_tokens(),
        spec_listed(old(iter).spec_tokens(), old(iter).spec_pos(), result),
        result is Ok ==> final(iter).spec_pos() == old(iter).spec_tokens().len(),
    decreases old(iter).spec_tokens(), 3nat,
{
    let ghost tokens = iter.spec_tokens();
    let ghost start = iter.spec_pos();
    let mut exprs: Vec<Expr> = Vec::new();
    let _ = iter.pos();
    proof {
        assert forall|library: Version| #[trigger]
            spec_list(tokens, start, library) == (match spec_list(tokens, start, library) {
                Some((any, all)) => Some(
                    (
                        spec_any_holds(exprs@, library) || any,
                        spec_all_hold(exprs@, library) && all,
                    ),
                ),
                None => None,
            }) by {}
    }
    loop
        invariant
            iter.spec_tokens() == tokens,
            tokens == old(iter).spec_tokens(),
            start == old(iter).spec_pos(),
            0 <= start <= iter.spec_pos(),
            forall|library: Version| #[trigger]
                spec_list(tokens, start, library) == (match spec_list(
                    tokens,
                    iter.spec_pos(),
                    library,
                ) {
                    Some((any, all)) => Some(
                        (
                            spec_any_holds(exprs@, library) || any,
                            spec_all_hold(exprs@, library) && all,
                        ),
                    ),
                    None => None,
                }),
        decreases tokens.len() - iter.spec_pos(),
    {
        let ghost pos = iter.spec_pos();
        let ghost before = exprs@;
        if iter.peek().is_none() {
            proof {
                assert forall|library: Version| #[trigger]
                    spec_list(tokens, start, library) == Some(
                        (spec_any_holds(exprs@, library), spec_all_hold(exprs@, library)),
                    ) by {
                    lemma_list(tokens, pos, library);
                }
            }
            return Ok(exprs);
        }
        let parsed = self::parse(iter);
        proof {
            assert forall|library: Version|
                spec_selector(tokens, pos, library) == (match parsed {
                    Ok(expr) => Some(expr.spec_eval(library)),
                    Err(_) => None,
                }) by {
                assert(spec_parsed(tokens, pos, parsed));
            }
        }
        let expr = match parsed {
            Ok(expr) => expr,
            Err(e) => {
                proof {
                    assert forall|library: Version| #[trigger]
                        spec_list(tokens, start, library) is None by {
                        lemma_list(tokens, pos, library);
                    }
                }
                return Err(e);
            },
        };
        let ghost holds = |library: Version| expr.spec_eval(library);
        exprs.push(expr);
        proof {
            assert forall|library: Version|
                spec_any_holds(exprs@, library) == (spec_any_holds(before, library) || holds(
                    library,
                )) && spec_all_hold(exprs@, library) == (spec_all_hold(before, library) && holds(
                    library,
                )) by {
                lemma_holds_push(before, exprs@[before.len() as int], library);
                assert(exprs@ =~= before.push(exprs@[before.len() as int]));
            }
        }
        if iter.peek().is_none() {
            proof {
                assert forall|library: Version| #[trigger]
                    spec_list(tokens, start, library) == Some(
                        (spec_any_holds(exprs@, library), spec_all_hold(exprs@, library)),
                    ) by {
                    lemma_list(tokens, pos, library);
                }
            }
            return Ok(exprs);
        }
        match parse_punct(iter, ',') {
            Ok(()) => {
                proof {
                    assert forall|library: Version| #[trigger]
                        spec_list(tokens, start, library) == (match spec_list(
                            tokens,
                            pos + 3,
                            library,
                        ) {
                            Some((any, all)) => Some(
                                (
                                    spec_any_holds(exprs@, library) || any,
                                    spec_all_hold(exprs@, library) && all,
                                ),
                            ),
                            None => None,
                        }) by {
                        lemma_list(tokens, pos, library);
                    }
                }
            },
            Err(e) => {
                proof {
                    assert forall|library: Version| #[trigger]
                        spec_list(tokens, start, library) is None by {
                        lemma_list(tokens, pos, library);
                    }
                }
                return Err(e);
            },
        }
    }
}

/// One more selector in a list holds or fails along with the list.
pub proof fn lemma_holds_push(exprs: Seq<Expr>, expr: Expr, library: Version)
    ensures
        spec_any_holds(exprs.push(expr), library) == (spec_any_holds(exprs, library)
            || expr.spec_eval(library)),
        spec_all_hold(exprs.push(expr), library) == (spec_all_hold(exprs, library)
            && expr.spec_eval(library)),
{
    let longer = exprs.push(expr);
    if spec_any_holds(exprs, library) {
        let i = choose|i: int| 0 <= i < exprs.len() && (#[trigger] exprs[i]).spec_eval(library);
        assert(longer[i].spec_eval(library));
    }
    if expr.spec_eval(library) {
        assert(longer[exprs.len() as int].spec_eval(library));
    }
    if spec_any_holds(longer, library) {
        let i = choose|i: int| 0 <= i < longer.len() && (#[trigger] longer[i]).spec_eval(library);
        if i < exprs.len() {
            assert(exprs[i].spec_eval(library));
        }
    }
    if spec_all_hold(longer, library) {
        assert forall|i: int| 0 <= i < exprs.len() implies (#[trigger] exprs[i]).spec_eval(
            library,
        ) by {
            assert(longer[i].spec_eval(library));
        }
        assert(longer[exprs.len() as int].spec_eval(library));
    }
    if spec_all_hold(exprs, library) && expr.spec_eval(library) {
        assert forall|i: int| 0 <= i < longer.len() implies (#[trigger] longer[i]).spec_eval(
            library,
        ) by {
            if i < exprs.len() {
                assert(exprs[i].spec_eval(library));
            }
        }
    }
}

} // verus!
