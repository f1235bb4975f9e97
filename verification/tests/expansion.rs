use dirscan::expand::create_urls;

fn parsed(s: &str) -> String {
    String::from(url::Url::parse(s).unwrap().as_str())
}

#[test]
/// sending url + word without any extensions should get back one url with the joined word
fn create_urls_no_extension_returns_base_url_with_word() {
    let urls = create_urls("http://localhost", "turbo", &vec![], false, &vec![]);
    assert_eq!(urls, vec![parsed("http://localhost/turbo")]);
}

#[test]
/// sending url + word + 1 extension should get back two urls, one base and one with extension
fn create_urls_one_extension_returns_two_urls() {
    let urls = create_urls(
        "http://localhost",
        "turbo",
        &vec![String::from("js")],
        false,
        &vec![],
    );
    assert_eq!(
        urls,
        vec![
            parsed("http://localhost/turbo"),
            parsed("http://localhost/turbo.js")
        ]
    );
}

#[test]
/// sending url + word + multiple extensions should get back n+1 urls
fn create_urls_multiple_extensions_returns_n_plus_one_urls() {
    let ext_vec = vec![
        vec![String::from("js")],
        vec![String::from("js"), String::from("php")],
        vec![String::from("js"), String::from("php"), String::from("pdf")],
        vec![
            String::from("js"),
            String::from("php"),
            String::from("pdf"),
            String::from("tar.gz"),
        ],
    ];

    let base = parsed("http://localhost/turbo");
    let js = parsed("http://localhost/turbo.js");
    let php = parsed("http://localhost/turbo.php");
    let pdf = parsed("http://localhost/turbo.pdf");
    let tar = parsed("http://localhost/turbo.tar.gz");

    let expected = vec![
        vec![base.clone(), js.clone()],
        vec![base.clone(), js.clone(), php.clone()],
        vec![base.clone(), js.clone(), php.clone(), pdf.clone()],
        vec![base, js, php, pdf, tar],
    ];

    for (i, ext_set) in ext_vec.into_iter().enumerate() {
        let urls = create_urls("http://localhost", "turbo", &ext_set, false, &vec![]);
        assert_eq!(urls, expected[i]);
    }
}

#[test]
/// a target that already ends in a slash is not given a second one
fn create_urls_target_with_trailing_slash() {
    let urls = create_urls("http://localhost/", "admin", &vec![], false, &vec![]);
    assert_eq!(urls, vec![parsed("http://localhost/admin")]);
}

#[test]
/// with add_slash set, the extension-less candidate gets a trailing slash
fn create_urls_add_slash_appends_slash() {
    let urls = create_urls("http://localhost", "admin", &vec![], true, &vec![]);
    assert_eq!(urls, vec![parsed("http://localhost/admin/")]);
}

#[test]
/// extensions win over add_slash: the extension candidate carries no slash
fn create_urls_extension_and_add_slash_are_exclusive() {
    let urls = create_urls(
        "http://localhost",
        "admin",
        &vec![String::from("js")],
        true,
        &vec![],
    );
    assert_eq!(
        urls,
        vec![
            parsed("http://localhost/admin/"),
            parsed("http://localhost/admin.js")
        ]
    );
}

#[test]
/// configured query pairs are appended to every candidate, in order
fn create_urls_appends_query_pairs() {
    let queries = vec![
        (String::from("a"), String::from("1")),
        (String::from("b"), String::from("2")),
    ];
    let urls = create_urls("http://localhost", "turbo", &vec![], false, &queries);
    assert_eq!(urls, vec![parsed("http://localhost/turbo?a=1&b=2")]);
}

#[test]
/// candidates carry the parser's normalized serialization, not the raw
/// concatenation
fn create_urls_normalizes_candidates() {
    let urls = create_urls("HTTP://LOCALHOST:80", "turbo", &vec![], false, &vec![]);
    assert_eq!(urls, vec![String::from("http://localhost/turbo")]);
}

#[test]
/// a target that cannot parse as an absolute URL yields no candidates at all
fn create_urls_unparseable_target_yields_nothing() {
    let urls = create_urls("not a url", "turbo", &vec![String::from("js")], false, &vec![]);
    assert!(urls.is_empty());
}
