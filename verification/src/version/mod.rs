//! Selecting code by the version of a linked native library.
//!
//! A selector such as `since(58.29.100)` or `any(before(57), not(since(59)))`
//! is read from tokens and evaluated against the version of one of the
//! native libraries. Code that is guarded by a selector is kept where the
//! selector holds and dropped where it does not.

pub mod expr;
pub mod release;
pub mod token;
pub mod version;

pub use expr::Expr;
pub use release::Release;
pub use token::{Delimiter, Iter, SelectorError, TokenTree, TokenView};
pub use version::Version;

use vstd::prelude::*;
use crate::util::text::same_text;
use expr::spec_selector;
use token::{
    clone_token, lemma_views, lemma_views_add, lemma_views_push, parse_end, spec_token_view,
    spec_views,
};

verus! {

/// The native libraries whose version can be asked for.
#[derive(Debug, Clone, Copy, PartialEq, Eq, Structural)]
pub enum Library {
    /// The container library.
    Format,
    /// The codec library.
    Codec,
    /// The filter library.
    Filter,
    /// The utility library.
    Util,
    /// The resampling library.
    Resample,
}

/// The versions of the native libraries that the binding is built against.
#[derive(Debug, Clone, Copy, PartialEq, Eq, Structural)]
pub struct LibraryVersions {
    pub format: Version,
    pub codec: Version,
    pub filter: Version,
    pub util: Version,
    pub resample: Version,
}

impl LibraryVersions {
    /// The version of one of the libraries.
    pub open spec fn spec_of(self, library: Library) -> Version {
        match library {
            Library::Format => self.format,
            Library::Codec => self.codec,
            Library::Filter => self.filter,
            Library::Util => self.util,
            Library::Resample => self.resample,
        }
    }

    /// The version of one of the libraries.
    pub fn of(&self, library: Library) -> (version: Version)
        ensures
            version == self.spec_of(library),
    {
        match library {
            Library::Format => self.format,
            Library::Codec => self.codec,
            Library::Filter => self.filter,
            Library::Util => self.util,
            Library::Resample => self.resample,
        }
    }
}

/// Whether the tokens from a place on are one selector and nothing else, and
/// whether that selector holds for the version.
pub open spec fn spec_satisfied(tokens: Seq<TokenTree>, pos: int, version: Version) -> Option<bool> {
    match spec_selector(tokens, pos, version) {
        Some(holds) => if pos + 2 == tokens.len() {
            Some(holds)
        } else {
            None
        },
        None => None,
    }
}

/// Reads one selector, which has to be all that is left of the tokens, and
/// tells whether it holds for the version.
pub fn check_satisfaction(args: &mut Iter<'_>, version: Version) -> (result: Result<
    bool,
    SelectorError,
>)
    ensures
        final(args).spec_tokens() == old(args).spec_tokens(),
        match spec_satisfied(old(args).spec_tokens(), old(args).spec_pos(), version) {
            Some(holds) => result == Ok::<bool, SelectorError>(holds),
            None => result is Err,
        },
{
    let ghost tokens = args.spec_tokens();
    let ghost pos = args.spec_pos();
    let parsed = expr::parse(args);
    assert(spec_selector(tokens, pos, version) == (match parsed {
        Ok(expr) => Some(expr.spec_eval(version)),
        Err(_) => None,
    })) by {
        assert(expr::spec_parsed(tokens, pos, parsed));
    }
    let expr = match parsed {
        Ok(expr) => expr,
        Err(e) => {
            return Err(e);
        },
    };
    match parse_end(args) {
        Ok(()) => Ok(expr.eval(version)),
        Err(e) => Err(e),
    }
}

/// Keeps the guarded tokens if the selector in `args` holds for the version
/// of the library, and drops them if it does not. Fails if `args` is no
/// selector.
pub fn try_cfg(
    library: Library,
    versions: &LibraryVersions,
    args: &Vec<TokenTree>,
    input: Vec<TokenTree>,
) -> (result: Result<Vec<TokenTree>, SelectorError>)
    ensures
        match spec_satisfied(args@, 0, versions.spec_of(library)) {
            Some(true) => result == Ok::<Vec<TokenTree>, SelectorError>(input),
            Some(false) => result matches Ok(kept) && kept@.len() == 0,
            None => result is Err,
        },
{
    let mut args = Iter::new(args);
    match check_satisfaction(&mut args, versions.of(library)) {
        Ok(true) => Ok(input),
        Ok(false) => Ok(Vec::new()),
        Err(e) => Err(e),
    }
}

/// The library that a word names.
pub open spec fn spec_library(word: Seq<char>) -> Option<Library> {
    if word == "libavformat"@ {
        Some(Library::Format)
    } else if word == "libavcodec"@ {
        Some(Library::Codec)
    } else if word == "libavutil"@ {
        Some(Library::Util)
    } else if word == "libavfilter"@ {
        Some(Library::Filter)
    } else if word == "libswresample"@ {
        Some(Library::Resample)
    } else {
        None
    }
}

/// The tokens that stand in the place of a guard that cannot be read: they
/// stop the build with a message.
pub open spec fn spec_build_error() -> Seq<TokenView> {
    seq![
        TokenView::Ident("compile_error"@),
        TokenView::Punct('!'),
        TokenView::Group(
            Delimiter::Parenthesis,
            seq![TokenView::Literal("\"invalid library version selector\""@)],
        ),
    ]
}

/// What is left of guarded tokens: the tokens themselves where the guard
/// holds, nothing where it does not, and tokens that stop the build where
/// the guard is none. A guard is the name of a library and a selector in
/// parentheses.
pub open spec fn spec_guarded(
    attr: Seq<TokenTree>,
    body: Seq<TokenView>,
    versions: LibraryVersions,
) -> Seq<TokenView> {
    if attr.len() >= 2 && attr[0] is Ident && spec_library(attr[0]->Ident_0@) is Some && attr[1]
        is Group && attr[1]->Group_0 == Delimiter::Parenthesis {
        match spec_satisfied(
            attr[1]->Group_1@,
            0,
            versions.spec_of(spec_library(attr[0]->Ident_0@)->0),
        ) {
            Some(true) => body,
            Some(false) => Seq::empty(),
            None => spec_build_error(),
        }
    } else {
        spec_build_error()
    }
}

/// The tokens from a place on with every guard taken out.
///
/// A guard is a number sign, a group in square brackets and a group in
/// braces. It is replaced by what is left of the tokens between the braces,
/// after the guards among them were taken out too. A number sign that no
/// such two groups follow stays, and so does every other token; the tokens
/// of any other group have their guards taken out.
pub open spec fn spec_find_attributes(tokens: Seq<TokenTree>, pos: int, versions: LibraryVersions)
    -> Seq<TokenView>
    decreases tokens, tokens.len() - pos,
{
    if pos < 0 || pos >= tokens.len() {
        Seq::empty()
    } else if tokens[pos].spec_is_punct('#') {
        if pos + 1 < tokens.len() && tokens[pos + 1] is Group && tokens[pos + 1]->Group_0
            == Delimiter::Bracket {
            if pos + 2 < tokens.len() && tokens[pos + 2] is Group && tokens[pos + 2]->Group_0
                == Delimiter::Brace {
                spec_guarded(
                    tokens[pos + 1]->Group_1@,
                    spec_find_attributes(tokens[pos + 2]->Group_1@, 0, versions),
                    versions,
                ) + spec_find_attributes(tokens, pos + 3, versions)
            } else {
                seq![TokenView::Punct('#'), spec_token_view(tokens[pos + 1])]
                    + spec_find_attributes(tokens, pos + 2, versions)
            }
        } else {
            seq![TokenView::Punct('#')] + spec_find_attributes(tokens, pos + 1, versions)
        }
    } else if tokens[pos] is Group {
        seq![
            TokenView::Group(
                tokens[pos]->Group_0,
                spec_find_attributes(tokens[pos]->Group_1@, 0, versions),
            ),
        ] + spec_find_attributes(tokens, pos + 1, versions)
    } else {
        seq![spec_token_view(tokens[pos])] + spec_find_attributes(tokens, pos + 1, versions)
    }
}

/// The library that a word names.
pub fn library_named(word: &str) -> (library: Option<Library>)
    ensures
        library == spec_library(word@),
{
    if same_text(word, "libavformat") {
        Some(Library::Format)
    } else if same_text(word, "libavcodec") {
        Some(Library::Codec)
    } else if same_text(word, "libavutil") {
        Some(Library::Util)
    } else if same_text(word, "libavfilter") {
        Some(Library::Filter)
    } else if same_text(word, "libswresample") {
        Some(Library::Resample)
    } else {
        None
    }
}

/// The tokens that stop the build with a message.
pub fn build_error() -> (tokens: Vec<TokenTree>)
    ensures
        spec_views(tokens@) == spec_build_error(),
{
    let mut inner: Vec<TokenTree> = Vec::new();
    inner.push(TokenTree::Literal(String::from_str("\"invalid library version selector\"")));
    let mut tokens: Vec<TokenTree> = Vec::new();
    tokens.push(TokenTree::Ident(String::from_str("compile_error")));
    tokens.push(TokenTree::Punct('!'));
    tokens.push(TokenTree::Group(Delimiter::Parenthesis, inner));
    proof {
        lemma_views(inner@);
        lemma_views(tokens@);
        assert(spec_views(inner@) =~= seq![
            TokenView::Literal("\"invalid library version selector\""@),
        ]);
        assert(tokens@[2]->Group_1 == inner);
        assert(spec_views(inner@)[0] == spec_token_view(inner@[0]));
        assert(spec_views(tokens@)[0] == spec_token_view(tokens@[0]));
        assert(spec_views(tokens@)[1] == spec_token_view(tokens@[1]));
        assert(spec_views(tokens@)[2] == spec_token_view(tokens@[2]));
        assert(spec_token_view(tokens@[2]) == TokenView::Group(
            Delimiter::Parenthesis,
            spec_views(inner@),
        ));
        assert(spec_views(tokens@) =~= spec_build_error());
    }
    tokens
}

/// What is left of guarded tokens under the selector in `args`: the tokens
/// where the selector holds for the version of the library, nothing where it
/// does not, and tokens that stop the build where `args` is no selector.
pub open spec fn spec_cfg(
    library: Library,
    versions: LibraryVersions,
    args: Seq<TokenTree>,
    input: Seq<TokenView>,
) -> Seq<TokenView> {
    match spec_satisfied(args, 0, versions.spec_of(library)) {
        Some(true) => input,
        Some(false) => Seq::empty(),
        None => spec_build_error(),
    }
}

/// Keeps the guarded tokens, drops them, or puts tokens in their place that
/// stop the build.
pub fn cfg(library: Library, versions: &LibraryVersions, args: &Vec<TokenTree>, input: Vec<TokenTree>)
    -> (out: Vec<TokenTree>)
    ensures
        spec_views(out@) == spec_cfg(library, *versions, args@, spec_views(input@)),
{
    match try_cfg(library, versions, args, input) {
        Ok(kept) => {
            proof {
                if kept@.len() == 0 {
                    assert(spec_views(kept@) =~= Seq::<TokenView>::empty());
                }
            }
            kept
        },
        Err(_) => build_error(),
    }
}

/// Takes every guard out of the tokens of an item.
pub fn ffcfg(item: &Vec<TokenTree>, versions: &LibraryVersions) -> (out: Vec<TokenTree>)
    ensures
        spec_views(out@) == spec_find_attributes(item@, 0, *versions),
{
    find_attributes(item, versions)
}

/// Guards tokens by the version of the container library.
pub fn libavformat(versions: &LibraryVersions, args: &Vec<TokenTree>, input: Vec<TokenTree>) -> (out:
    Vec<TokenTree>)
    ensures
        spec_views(out@) == spec_cfg(Library::Format, *versions, args@, spec_views(input@)),
{
    cfg(Library::Format, versions, args, input)
}

/// Guards tokens by the version of the codec library.
pub fn libavcodec(versions: &LibraryVersions, args: &Vec<TokenTree>, input: Vec<TokenTree>) -> (out:
    Vec<TokenTree>)
    ensures
        spec_views(out@) == spec_cfg(Library::Codec, *versions, args@, spec_views(input@)),
{
    cfg(Library::Codec, versions, args, input)
}

/// Guards tokens by the version of the utility library.
pub fn libavutil(versions: &LibraryVersions, args: &Vec<TokenTree>, input: Vec<TokenTree>) -> (out:
    Vec<TokenTree>)
    ensures
        spec_views(out@) == spec_cfg(Library::Util, *versions, args@, spec_views(input@)),
{
    cfg(Library::Util, versions, args, input)
}

/// Guards tokens by the version of the filter library.
pub fn libavfilter(versions: &LibraryVersions, args: &Vec<TokenTree>, input: Vec<TokenTree>) -> (out:
    Vec<TokenTree>)
    ensures
        spec_views(out@) == spec_cfg(Library::Filter, *versions, args@, spec_views(input@)),
{
    cfg(Library::Filter, versions, args, input)
}

/// Guards tokens by the version of the resampling library.
pub fn libswresample(versions: &LibraryVersions, args: &Vec<TokenTree>, input: Vec<TokenTree>)
    -> (out: Vec<TokenTree>)
    ensures
        spec_views(out@) == spec_cfg(Library::Resample, *versions, args@, spec_views(input@)),
{
    cfg(Library::Resample, versions, args, input)
}

/// Replaces a guard by what is left of the tokens that it guards. `body`
/// holds those tokens with their own guards already taken out.
pub fn handle_attribute(attr: &Vec<TokenTree>, body: Vec<TokenTree>, versions: &LibraryVersions)
    -> (out: Vec<TokenTree>)
    ensures
        spec_views(out@) == spec_guarded(attr@, spec_views(body@), *versions),
{
    if attr.len() < 2 {
        return build_error();
    }
    let library = match &attr[0] {
        TokenTree::Ident(word) => match library_named(word.as_str()) {
            Some(library) => library,
            None => {
                return build_error();
            },
        },
        _ => {
            return build_error();
        },
    };
    let args = match &attr[1] {
        TokenTree::Group(Delimiter::Parenthesis, args) => args,
        _ => {
            return build_error();
        },
    };
    assert(attr@[1]->Group_1 == *args);
    cfg(library, versions, args, body)
}

/// Takes every guard out of the tokens.
pub fn find_attributes(item: &Vec<TokenTree>, versions: &LibraryVersions) -> (out: Vec<TokenTree>)
    ensures
        spec_views(out@) == spec_find_attributes(item@, 0, *versions),
    decreases item@,
{
    let mut out: Vec<TokenTree> = Vec::new();
    let mut pos: usize = 0;
    proof {
        assert(spec_views(out@) + spec_find_attributes(item@, 0, *versions)
            =~= spec_find_attributes(item@, 0, *versions));
    }
    while pos < item.len()
        invariant
            pos <= item@.len(),
            spec_views(out@) + spec_find_attributes(item@, pos as int, *versions)
                == spec_find_attributes(item@, 0, *versions),
        decreases item@.len() - pos,
    {
        let ghost before = out@;
        let ghost rest_now = spec_find_attributes(item@, pos as int, *versions);
        let token = &item[pos];
        let is_sign = match token {
            TokenTree::Punct(c) => *c == '#',
            _ => false,
        };
        if is_sign {
            let attr = if pos + 1 < item.len() {
                match &item[pos + 1] {
                    TokenTree::Group(Delimiter::Bracket, attr) => Some(attr),
                    _ => None,
                }
            } else {
                None
            };
            match attr {
                None => {
                    let sign = clone_token(token);
                    proof {
                        lemma_views_push(before, sign);
                        assert(spec_views(before).push(spec_token_view(sign))
                            + spec_find_attributes(item@, pos + 1, *versions) =~= spec_views(
                            before,
                        ) + rest_now);
                    }
                    out.push(sign);
                    pos += 1;
                },
                Some(attr) => {
                    assert(item@[pos + 1]->Group_1 == *attr);
                    let body = if pos + 2 < item.len() {
                        match &item[pos + 2] {
                            TokenTree::Group(Delimiter::Brace, body) => Some(body),
                            _ => None,
                        }
                    } else {
                        None
                    };
                    match body {
                        None => {
                            let sign = clone_token(token);
                            let group = clone_token(&item[pos + 1]);
                            proof {
                                lemma_views_push(before, sign);
                                lemma_views_push(before.push(sign), group);
                                assert(spec_views(before).push(spec_token_view(sign)).push(
                                    spec_token_view(group),
                                ) + spec_find_attributes(item@, pos + 2, *versions)
                                    =~= spec_views(before) + rest_now);
                            }
                            out.push(sign);
                            out.push(group);
                            pos += 2;
                        },
                        Some(body) => {
                            assert(item@[pos + 2]->Group_1 == *body);
                            let inner = find_attributes(body, versions);
                            let mut kept = handle_attribute(attr, inner, versions);
                            proof {
                                lemma_views_add(before, kept@);
                                assert((spec_views(before) + spec_views(kept@))
                                    + spec_find_attributes(item@, pos + 3, *versions)
                                    =~= spec_views(before) + rest_now);
                            }
                            out.append(&mut kept);
                            pos += 3;
                        },
                    }
                },
            }
        } else {
            match token {
                TokenTree::Group(delimiter, inner) => {
                    let rewritten = find_attributes(inner, versions);
                    let group = TokenTree::Group(*delimiter, rewritten);
                    proof {
                        assert(group->Group_1 == rewritten);
                        assert(item@[pos as int]->Group_1 == *inner);
                        lemma_views_push(before, group);
                        assert(spec_views(before).push(spec_token_view(group))
                            + spec_find_attributes(item@, pos + 1, *versions) =~= spec_views(
                            before,
                        ) + rest_now);
                    }
                    out.push(group);
                },
                _ => {
                    let copy = clone_token(token);
                    proof {
                        lemma_views_push(before, copy);
                        assert(spec_views(before).push(spec_token_view(copy))
                            + spec_find_attributes(item@, pos + 1, *versions) =~= spec_views(
                            before,
                        ) + rest_now);
                    }
                    out.push(copy);
                },
            }
            pos += 1;
        }
    }
    proof {
        assert(spec_views(out@) + spec_find_attributes(item@, pos as int, *versions)
            =~= spec_views(out@));
    }
    out
}

} // verus!
