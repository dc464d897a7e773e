use ffav::version::expr::{parse, parse_comma_separated};
use ffav::version::release::{parse_u16, split_points, try_parse};
use ffav::version::{
    check_satisfaction, try_cfg, Delimiter, Expr, Iter, Library, LibraryVersions, Release, TokenTree, Version,
};

fn ident(word: &str) -> TokenTree {
    TokenTree::Ident(word.to_string())
}

fn lit(text: &str) -> TokenTree {
    TokenTree::Literal(text.to_string())
}

fn paren(inner: Vec<TokenTree>) -> TokenTree {
    TokenTree::Group(Delimiter::Parenthesis, inner)
}

fn comma() -> TokenTree {
    TokenTree::Punct(',')
}

fn since(text: &str) -> Vec<TokenTree> {
    vec![ident("since"), paren(vec![lit(text)])]
}

fn before(text: &str) -> Vec<TokenTree> {
    vec![ident("before"), paren(vec![lit(text)])]
}

fn version(major: u16, minor: u16, patch: u16) -> Version {
    Version { major, minor, patch }
}

fn holds(tokens: &Vec<TokenTree>, library: Version) -> Option<bool> {
    let mut iter = Iter::new(tokens);
    check_satisfaction(&mut iter, library).ok()
}

#[test]
fn version_is_compared_with_a_release() {
    let library = version(58, 29, 100);
    let exact = Release { major: 58, minor: Some(29), patch: Some(100) };
    assert!(library.is(&exact));
    assert!(library.since(&exact));
    assert!(!library.before(&exact));
    assert!(library.is(&Release { major: 58, minor: None, patch: None }));
    assert!(!library.is(&Release { major: 58, minor: Some(30), patch: None }));
    assert!(library.since(&Release { major: 58, minor: None, patch: None }));
    assert!(library.before(&Release { major: 58, minor: Some(76), patch: None }));
    assert!(library.before(&Release { major: 59, minor: None, patch: None }));
    assert!(library.before(&Release { major: 58, minor: Some(29), patch: Some(101) }));
    assert!(!library.before(&Release { major: 58, minor: Some(29), patch: None }));
    assert!(!library.before(&Release { major: 57, minor: Some(99), patch: Some(999) }));
}

#[test]
fn selectors_are_evaluated() {
    let library = version(58, 29, 100);
    let old = Release { major: 57, minor: None, patch: None };
    let new = Release { major: 59, minor: None, patch: None };
    assert!(Expr::Since(old).eval(library));
    assert!(!Expr::Since(new).eval(library));
    assert!(Expr::Before(new).eval(library));
    assert!(!Expr::Not(Box::new(Expr::Before(new))).eval(library));
    assert!(Expr::Any(vec![Expr::Since(new), Expr::Since(old)]).eval(library));
    assert!(!Expr::Any(vec![Expr::Since(new), Expr::Before(old)]).eval(library));
    assert!(!Expr::Any(vec![]).eval(library));
    assert!(Expr::All(vec![]).eval(library));
    assert!(Expr::All(vec![Expr::Since(old), Expr::Before(new)]).eval(library));
    assert!(!Expr::All(vec![Expr::Since(old), Expr::Since(new)]).eval(library));
    assert!(Expr::All(vec![Expr::Any(vec![Expr::Since(old)]), Expr::Not(Box::new(Expr::Since(new)))]).eval(library));
}

#[test]
fn numbers_are_read() {
    let chars = |s: &str| s.chars().collect::<Vec<char>>();
    assert_eq!(parse_u16(&chars("0")), Some(0));
    assert_eq!(parse_u16(&chars("58")), Some(58));
    assert_eq!(parse_u16(&chars("007")), Some(7));
    assert_eq!(parse_u16(&chars("+12")), Some(12));
    assert_eq!(parse_u16(&chars("65535")), Some(65535));
    assert_eq!(parse_u16(&chars("65536")), None);
    assert_eq!(parse_u16(&chars("99999999999999999999")), None);
    assert_eq!(parse_u16(&chars("")), None);
    assert_eq!(parse_u16(&chars("+")), None);
    assert_eq!(parse_u16(&chars("-1")), None);
    assert_eq!(parse_u16(&chars("1a")), None);
    assert_eq!(parse_u16(&chars("1+")), None);
    assert_eq!(parse_u16(&chars("७")), None);
}

#[test]
fn text_is_cut_at_its_points() {
    let chars = |s: &str| s.chars().collect::<Vec<char>>();
    assert_eq!(split_points(&chars("58.29")), vec![chars("58"), chars("29")]);
    assert_eq!(split_points(&chars("58")), vec![chars("58")]);
    assert_eq!(split_points(&chars("")), vec![chars("")]);
    assert_eq!(split_points(&chars("1.")), vec![chars("1"), chars("")]);
    assert_eq!(split_points(&chars(".1..")), vec![chars(""), chars("1"), chars(""), chars("")]);
}

#[test]
fn releases_are_read() {
    let read = |tokens: Vec<TokenTree>| {
        let mut iter = Iter::new(&tokens);
        let release = try_parse(&mut iter);
        (release, iter.pos())
    };
    assert_eq!(read(vec![lit("58")]), (Ok(Release { major: 58, minor: None, patch: None }), 1));
    assert_eq!(read(vec![lit("58.29")]), (Ok(Release { major: 58, minor: Some(29), patch: None }), 1));
    assert_eq!(
        read(vec![lit("58.29"), TokenTree::Punct('.'), lit("100")]),
        (Ok(Release { major: 58, minor: Some(29), patch: Some(100) }), 3)
    );
    assert_eq!(
        read(vec![lit("58"), TokenTree::Punct('.'), lit("100")]),
        (Ok(Release { major: 58, minor: None, patch: Some(100) }), 3)
    );
    assert_eq!(read(vec![lit("1.2.3")]), (Ok(Release { major: 1, minor: None, patch: None }), 1));
    assert_eq!(read(vec![lit("58"), comma()]), (Ok(Release { major: 58, minor: None, patch: None }), 1));
    assert!(read(vec![]).0.is_err());
    assert!(read(vec![ident("x")]).0.is_err());
    assert!(read(vec![lit("58.")]).0.is_err());
    assert!(read(vec![lit("a.1")]).0.is_err());
    assert!(read(vec![lit("70000")]).0.is_err());
    assert!(read(vec![lit("58.29"), TokenTree::Punct('.')]).0.is_err());
    assert!(read(vec![lit("58.29"), TokenTree::Punct('.'), lit("x")]).0.is_err());
}

#[test]
fn selectors_are_read_and_hold_as_written() {
    let library = version(58, 29, 100);
    assert_eq!(holds(&since("58.29"), library), Some(true));
    assert_eq!(holds(&since("58.76"), library), Some(false));
    assert_eq!(holds(&before("58.76"), library), Some(true));
    assert_eq!(holds(&before("58"), library), Some(false));
    assert_eq!(holds(&vec![ident("since"), paren(vec![lit("58.29"), TokenTree::Punct('.'), lit("100"), comma()])], library), Some(true));
    assert_eq!(holds(&vec![ident("since"), paren(vec![lit("58.29"), TokenTree::Punct('.'), lit("101")])], library), Some(false));
    assert_eq!(holds(&vec![ident("not"), paren(since("59"))], library), Some(true));
    let mut with_comma = since("59");
    with_comma.push(comma());
    assert_eq!(holds(&vec![ident("not"), paren(with_comma)], library), Some(true));
    let mut list = since("59");
    list.push(comma());
    list.extend(before("59"));
    assert_eq!(holds(&vec![ident("any"), paren(list)], library), Some(true));
    let mut list = since("59");
    list.push(comma());
    list.extend(before("59"));
    list.push(comma());
    assert_eq!(holds(&vec![ident("all"), paren(list)], library), Some(false));
    assert_eq!(holds(&vec![ident("any"), paren(vec![])], library), Some(false));
    assert_eq!(holds(&vec![ident("all"), paren(vec![])], library), Some(true));
    let nested = vec![ident("all"), paren(vec![ident("not"), paren(before("57")), comma(), ident("any"), paren(since("58"))])];
    assert_eq!(holds(&nested, library), Some(true));
}

#[test]
fn what_is_no_selector_is_refused() {
    let library = version(58, 29, 100);
    assert_eq!(holds(&vec![], library), None);
    assert_eq!(holds(&vec![ident("since")], library), None);
    assert_eq!(holds(&vec![ident("after"), paren(vec![lit("58")])], library), None);
    assert_eq!(holds(&vec![lit("58")], library), None);
    assert_eq!(holds(&vec![ident("since"), TokenTree::Group(Delimiter::Bracket, vec![lit("58")])], library), None);
    assert_eq!(holds(&vec![ident("since"), paren(vec![])], library), None);
    assert_eq!(holds(&vec![ident("since"), paren(vec![lit("58"), lit("59")])], library), None);
    assert_eq!(holds(&vec![ident("since"), paren(vec![lit("58"), comma(), comma()])], library), None);
    let mut extra = since("58");
    extra.push(comma());
    assert_eq!(holds(&extra, library), None);
    assert_eq!(holds(&vec![ident("not"), paren(vec![])], library), None);
    let mut two = since("58");
    two.push(comma());
    two.extend(since("59"));
    assert_eq!(holds(&vec![ident("not"), paren(two)], library), None);
    let mut no_comma = since("58");
    no_comma.extend(since("59"));
    assert_eq!(holds(&vec![ident("any"), paren(no_comma)], library), None);
    assert_eq!(holds(&vec![ident("any"), paren(vec![comma()])], library), None);
    assert_eq!(holds(&vec![ident("all"), paren(vec![ident("since")])], library), None);
}

#[test]
fn parser_moves_past_what_it_read() {
    let mut tokens = since("58");
    tokens.push(comma());
    tokens.extend(before("59"));
    let mut iter = Iter::new(&tokens);
    let first = parse(&mut iter).unwrap();
    assert_eq!(iter.pos(), 2);
    assert!(first.eval(version(58, 0, 0)));
    let mut iter = Iter::new(&tokens);
    let list = parse_comma_separated(&mut iter).unwrap();
    assert_eq!(list.len(), 2);
    assert_eq!(iter.pos(), 5);
    assert!(list[1].eval(version(58, 0, 0)));
    assert!(!list[1].eval(version(59, 0, 0)));
}

#[test]
fn guarded_tokens_are_kept_where_the_selector_holds() {
    let versions = LibraryVersions {
        format: version(58, 76, 100),
        codec: version(58, 134, 100),
        filter: version(7, 110, 100),
        util: version(56, 70, 100),
        resample: version(3, 9, 100),
    };
    assert_eq!(versions.of(Library::Filter), version(7, 110, 100));
    assert_eq!(versions.of(Library::Resample), version(3, 9, 100));
    let body = || vec![ident("EBU3213"), comma()];
    let kept = try_cfg(Library::Format, &versions, &since("58.76"), body()).unwrap();
    assert_eq!(kept.len(), 2);
    assert!(matches!(&kept[0], TokenTree::Ident(word) if word == "EBU3213"));
    let dropped = try_cfg(Library::Format, &versions, &before("58.76"), body()).unwrap();
    assert!(dropped.is_empty());
    let dropped = try_cfg(Library::Util, &versions, &since("58.76"), body()).unwrap();
    assert!(dropped.is_empty());
    let kept = try_cfg(Library::Codec, &versions, &since("58.76"), body()).unwrap();
    assert_eq!(kept.len(), 2);
    assert!(try_cfg(Library::Format, &versions, &vec![ident("since")], body()).is_err());
}

fn versions() -> LibraryVersions {
    LibraryVersions {
        format: version(58, 76, 100),
        codec: version(58, 134, 100),
        filter: version(7, 110, 100),
        util: version(56, 70, 100),
        resample: version(3, 9, 100),
    }
}

fn guard(library: &str, selector: Vec<TokenTree>, body: Vec<TokenTree>) -> Vec<TokenTree> {
    vec![
        TokenTree::Punct('#'),
        TokenTree::Group(Delimiter::Bracket, vec![ident(library), paren(selector)]),
        TokenTree::Group(Delimiter::Brace, body),
    ]
}

fn show(tokens: &[TokenTree]) -> String {
    let mut out = String::new();
    for token in tokens {
        match token {
            TokenTree::Group(d, inner) => {
                let (open, close) = match d {
                    Delimiter::Parenthesis => ("(", ")"),
                    Delimiter::Brace => ("{", "}"),
                    Delimiter::Bracket => ("[", "]"),
                    Delimiter::Invisible => ("<", ">"),
                };
                out.push_str(open);
                out.push_str(&show(inner));
                out.push_str(close);
            },
            TokenTree::Ident(w) => {
                out.push_str(w);
                out.push(' ');
            },
            TokenTree::Punct(c) => out.push(*c),
            TokenTree::Literal(t) => {
                out.push_str(t);
                out.push(' ');
            },
        }
    }
    out
}

#[test]
fn guards_are_taken_out_of_the_tokens() {
    let mut item = vec![ident("enum"), ident("ColorPrimary")];
    let mut variants = vec![ident("BT709"), comma()];
    variants.extend(guard("libavformat", since("58.76"), vec![ident("EBU3213"), comma()]));
    variants.extend(guard("libavformat", before("58.76"), vec![ident("JEDECP22"), comma()]));
    variants.push(ident("FILM"));
    item.push(TokenTree::Group(Delimiter::Brace, variants));
    let out = ffav::version::ffcfg(&item, &versions());
    assert_eq!(show(&out), "enum ColorPrimary {BT709 ,EBU3213 ,FILM }");
    let old = LibraryVersions { format: version(58, 29, 100), ..versions() };
    let out = ffav::version::find_attributes(&item, &old);
    assert_eq!(show(&out), "enum ColorPrimary {BT709 ,JEDECP22 ,FILM }");
}

#[test]
fn guards_inside_guarded_tokens_are_taken_out_too() {
    let inner = guard("libavcodec", since("59"), vec![ident("b")]);
    let mut body = vec![ident("a")];
    body.extend(inner);
    body.push(ident("c"));
    let item = guard("libavutil", since("56"), body);
    assert_eq!(show(&ffav::version::find_attributes(&item, &versions())), "a c ");
    let item = guard("libavutil", since("57"), vec![ident("a")]);
    assert_eq!(show(&ffav::version::find_attributes(&item, &versions())), "");
}

#[test]
fn what_is_no_guard_stays() {
    let item = vec![
        TokenTree::Punct('#'),
        TokenTree::Group(Delimiter::Bracket, vec![ident("derive"), paren(vec![ident("Debug")])]),
        ident("struct"),
        ident("S"),
        TokenTree::Punct(';'),
        TokenTree::Punct('#'),
        TokenTree::Punct('#'),
        TokenTree::Group(Delimiter::Parenthesis, vec![TokenTree::Punct('#')]),
        lit("1"),
        TokenTree::Punct('#'),
    ];
    assert_eq!(show(&ffav::version::find_attributes(&item, &versions())), "#[derive (Debug )]struct S ;##(#)1 #");
    assert_eq!(show(&ffav::version::find_attributes(&vec![], &versions())), "");
}

#[test]
fn a_guard_that_cannot_be_read_stops_the_build() {
    let stop = "compile_error !(\"invalid library version selector\" )";
    let item = guard("libavformat", vec![ident("since")], vec![ident("a")]);
    assert_eq!(show(&ffav::version::find_attributes(&item, &versions())), stop);
    let item = guard("libpostproc", since("1"), vec![ident("a")]);
    assert_eq!(show(&ffav::version::find_attributes(&item, &versions())), stop);
    let item = vec![
        TokenTree::Punct('#'),
        TokenTree::Group(Delimiter::Bracket, vec![ident("libavformat")]),
        TokenTree::Group(Delimiter::Brace, vec![ident("a")]),
    ];
    assert_eq!(show(&ffav::version::find_attributes(&item, &versions())), stop);
    let item = vec![
        TokenTree::Punct('#'),
        TokenTree::Group(Delimiter::Bracket, vec![]),
        TokenTree::Group(Delimiter::Brace, vec![ident("a")]),
        ident("b"),
    ];
    assert_eq!(show(&ffav::version::find_attributes(&item, &versions())), format!("{}b ", stop));
}

#[test]
fn each_library_guards_by_its_own_version() {
    let body = || vec![ident("x")];
    let v = versions();
    assert_eq!(show(&ffav::version::libavformat(&v, &since("58.76"), body())), "x ");
    assert_eq!(show(&ffav::version::libavcodec(&v, &since("58.135"), body())), "");
    assert_eq!(show(&ffav::version::libavutil(&v, &before("57"), body())), "x ");
    assert_eq!(show(&ffav::version::libavfilter(&v, &since("7.110"), body())), "x ");
    assert_eq!(show(&ffav::version::libswresample(&v, &since("4"), body())), "");
    assert_eq!(
        show(&ffav::version::libswresample(&v, &vec![lit("4")], body())),
        "compile_error !(\"invalid library version selector\" )"
    );
    assert_eq!(show(&ffav::version::cfg(Library::Util, &v, &since("56.70"), body())), "x ");
    assert_eq!(ffav::version::library_named("libavfilter"), Some(Library::Filter));
    assert_eq!(ffav::version::library_named("avfilter"), None);
}
