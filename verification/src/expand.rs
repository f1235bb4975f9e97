//! URL expansion: turning one target and one wordlist entry into the
//! ordered list of candidate URLs to request. A candidate is the target,
//! the word, an optional extension or trailing slash, and the configured
//! query pairs; candidates that do not parse as absolute URLs are dropped
//! silently.

use vstd::prelude::*;
use vstd::string::StringExecFns;

use crate::text::ends_with_slash;
use crate::text::str_ends_with_slash;
use crate::urls::parse_url;
use crate::urls::url_parse_spec;

verus! {

/// The target with a trailing slash ensured, so the word always starts a
/// new path segment.
pub open spec fn normalized_target_spec(target: Seq<char>) -> Seq<char> {
    if ends_with_slash(target) {
        target
    } else {
        target.push('/')
    }
}

/// The query pairs rendered as `k=v` joined by `&`, in the order given.
pub open spec fn query_string_spec(queries: Seq<(Seq<char>, Seq<char>)>) -> Seq<char>
    decreases queries.len(),
{
    if queries.len() == 0 {
        Seq::empty()
    } else if queries.len() == 1 {
        queries[0].0 + seq!['='] + queries[0].1
    } else {
        query_string_spec(queries.drop_last()) + seq!['&'] + queries.last().0 + seq!['=']
            + queries.last().1
    }
}

/// The path contribution of one word: with an extension, `word.ext`;
/// without one, the word itself, plus a trailing slash when configured.
/// Extensions and added slashes are mutually exclusive.
pub open spec fn path_part_spec(word: Seq<char>, ext: Option<Seq<char>>, add_slash: bool) -> Seq<
    char,
> {
    match ext {
        Some(e) => word + seq!['.'] + e,
        None => if add_slash && !ends_with_slash(word) {
            word.push('/')
        } else {
            word
        },
    }
}

/// One candidate string before URL validation.
pub open spec fn candidate_spec(
    target: Seq<char>,
    word: Seq<char>,
    ext: Option<Seq<char>>,
    add_slash: bool,
    queries: Seq<(Seq<char>, Seq<char>)>,
) -> Seq<char> {
    let base = normalized_target_spec(target) + path_part_spec(word, ext, add_slash);
    if queries.len() == 0 {
        base
    } else {
        base + seq!['?'] + query_string_spec(queries)
    }
}

/// The zero or one URLs a candidate contributes: its parsed serialization
/// when it parses, nothing otherwise.
pub open spec fn parsed_or_empty(candidate: Seq<char>) -> Seq<Seq<char>> {
    match url_parse_spec(candidate) {
        Some(u) => seq![u],
        None => Seq::empty(),
    }
}

/// Every URL the expansion of one word produces: the extension-less
/// candidate first, then one candidate per extension, in order, each kept
/// only when it parses.
pub open spec fn expand_spec(
    target: Seq<char>,
    word: Seq<char>,
    exts: Seq<Seq<char>>,
    add_slash: bool,
    queries: Seq<(Seq<char>, Seq<char>)>,
) -> Seq<Seq<char>>
    decreases exts.len(),
{
    if exts.len() == 0 {
        parsed_or_empty(candidate_spec(target, word, None, add_slash, queries))
    } else {
        expand_spec(target, word, exts.drop_last(), add_slash, queries) + parsed_or_empty(
            candidate_spec(target, word, Some(exts.last()), add_slash, queries),
        )
    }
}

fn build_query_string(queries: &Vec<(String, String)>) -> (r: String)
    ensures
        r@ == query_string_spec(queries.deep_view()),
{
    let mut out = String::new();
    let mut i: usize = 0;
    while i < queries.len()
        invariant
            i <= queries.len(),
            out@ == query_string_spec(queries.deep_view().take(i as int)),
        decreases queries.len() - i,
    {
        if i > 0 {
            out.append("&");
        }
        out.append(queries[i].0.as_str());
        out.append("=");
        out.append(queries[i].1.as_str());
        proof {
            reveal_strlit("&");
            reveal_strlit("=");
            let qv = queries.deep_view();
            assert(qv.take(i + 1).drop_last() =~= qv.take(i as int));
            assert(qv.take(i + 1).last() == qv[i as int]);
            assert(qv[i as int].0 == queries@[i as int].0@);
            assert(qv[i as int].1 == queries@[i as int].1@);
            assert(out@ =~= query_string_spec(qv.take(i + 1)));
        }
        i = i + 1;
    }
    proof {
        assert(queries.deep_view().take(queries.len() as int) =~= queries.deep_view());
    }
    out
}

fn build_candidate(
    target: &str,
    word: &str,
    ext: Option<&String>,
    add_slash: bool,
    queries: &Vec<(String, String)>,
) -> (r: String)
    ensures
        r@ == candidate_spec(target@, word@, ext.deep_view(), add_slash, queries.deep_view()),
{
    let mut out = String::from_str(target);
    if !str_ends_with_slash(target) {
        out.append("/");
    }
    proof {
        reveal_strlit("/");
        assert(out@ =~= normalized_target_spec(target@));
    }
    match ext {
        Some(e) => {
            out.append(word);
            out.append(".");
            out.append(e.as_str());
            proof {
                reveal_strlit(".");
                assert(out@ =~= normalized_target_spec(target@) + path_part_spec(
                    word@,
                    Some(e@),
                    add_slash,
                ));
            }
        },
        None => {
            out.append(word);
            if add_slash && !str_ends_with_slash(word) {
                out.append("/");
            }
            proof {
                assert(out@ =~= normalized_target_spec(target@) + path_part_spec(
                    word@,
                    None,
                    add_slash,
                ));
            }
        },
    }
    if queries.len() > 0 {
        out.append("?");
        let q = build_query_string(queries);
        out.append(q.as_str());
        proof {
            reveal_strlit("?");
            assert(out@ =~= candidate_spec(
                target@,
                word@,
                ext.deep_view(),
                add_slash,
                queries.deep_view(),
            ));
        }
    }
    out
}

/// Expands one wordlist entry into the URLs to request: the extension-less
/// URL first, then one per configured extension, dropping candidates that
/// fail to parse.
pub fn create_urls(
    target_url: &str,
    word: &str,
    extensions: &Vec<String>,
    add_slash: bool,
    queries: &Vec<(String, String)>,
) -> (urls: Vec<String>)
    ensures
        urls.deep_view() == expand_spec(
            target_url@,
            word@,
            extensions.deep_view(),
            add_slash,
            queries.deep_view(),
        ),
{
    let mut urls: Vec<String> = Vec::new();
    let base = build_candidate(target_url, word, None, add_slash, queries);
    match parse_url(base.as_str()) {
        Some(u) => urls.push(u),
        None => {},
    }
    proof {
        assert(extensions.deep_view().take(0) =~= Seq::<Seq<char>>::empty());
        assert(urls.deep_view() =~= expand_spec(
            target_url@,
            word@,
            extensions.deep_view().take(0),
            add_slash,
            queries.deep_view(),
        ));
    }
    let mut i: usize = 0;
    while i < extensions.len()
        invariant
            i <= extensions.len(),
            urls.deep_view() == expand_spec(
                target_url@,
                word@,
                extensions.deep_view().take(i as int),
                add_slash,
                queries.deep_view(),
            ),
        decreases extensions.len() - i,
    {
        let candidate = build_candidate(target_url, word, Some(&extensions[i]), add_slash, queries);
        match parse_url(candidate.as_str()) {
            Some(u) => urls.push(u),
            None => {},
        }
        proof {
            let ev = extensions.deep_view();
            assert(ev.take(i + 1).drop_last() =~= ev.take(i as int));
            assert(ev.take(i + 1).last() == ev[i as int]);
            assert(ev[i as int] == extensions@[i as int]@);
            assert(urls.deep_view() =~= expand_spec(
                target_url@,
                word@,
                ev.take(i + 1),
                add_slash,
                queries.deep_view(),
            ));
        }
        i = i + 1;
    }
    proof {
        assert(extensions.deep_view().take(extensions.len() as int) =~= extensions.deep_view());
    }
    urls
}

/// Whether the extension-less candidate and every per-extension candidate
/// of an expansion parse as absolute URLs.
pub open spec fn all_candidates_parse(
    target: Seq<char>,
    word: Seq<char>,
    exts: Seq<Seq<char>>,
    add_slash: bool,
    queries: Seq<(Seq<char>, Seq<char>)>,
) -> bool {
    &&& url_parse_spec(candidate_spec(target, word, None, add_slash, queries)) is Some
    &&& forall|i: int|
        0 <= i < exts.len() ==> url_parse_spec(
            candidate_spec(target, word, Some(#[trigger] exts[i]), add_slash, queries),
        ) is Some
}

/// Whether neither the extension-less candidate nor any per-extension
/// candidate of an expansion parses as an absolute URL.
pub open spec fn no_candidate_parses(
    target: Seq<char>,
    word: Seq<char>,
    exts: Seq<Seq<char>>,
    add_slash: bool,
    queries: Seq<(Seq<char>, Seq<char>)>,
) -> bool {
    &&& url_parse_spec(candidate_spec(target, word, None, add_slash, queries)) is None
    &&& forall|i: int|
        0 <= i < exts.len() ==> url_parse_spec(
            candidate_spec(target, word, Some(#[trigger] exts[i]), add_slash, queries),
        ) is None
}

/// Law: an expansion never yields more than one URL per candidate, yields
/// exactly `1 + exts.len()` URLs whenever every candidate parses, and is
/// empty exactly when every candidate fails to parse.
pub proof fn lemma_expand_count(
    target: Seq<char>,
    word: Seq<char>,
    exts: Seq<Seq<char>>,
    add_slash: bool,
    queries: Seq<(Seq<char>, Seq<char>)>,
)
    ensures
        expand_spec(target, word, exts, add_slash, queries).len() <= 1 + exts.len(),
        all_candidates_parse(target, word, exts, add_slash, queries) ==> expand_spec(
            target,
            word,
            exts,
            add_slash,
            queries,
        ).len() == 1 + exts.len(),
        expand_spec(target, word, exts, add_slash, queries).len() == 0 <==> no_candidate_parses(
            target,
            word,
            exts,
            add_slash,
            queries,
        ),
    decreases exts.len(),
{
    if exts.len() == 0 {
    } else {
        lemma_expand_count(target, word, exts.drop_last(), add_slash, queries);
        assert(exts.last() == exts[exts.len() - 1]);
        if all_candidates_parse(target, word, exts, add_slash, queries) {
            assert forall|i: int| 0 <= i < exts.drop_last().len() implies url_parse_spec(
                candidate_spec(
                    target,
                    word,
                    Some(#[trigger] exts.drop_last()[i]),
                    add_slash,
                    queries,
                ),
            ) is Some by {
                assert(exts.drop_last()[i] == exts[i]);
            }
        }
        if no_candidate_parses(target, word, exts, add_slash, queries) {
            assert forall|i: int| 0 <= i < exts.drop_last().len() implies url_parse_spec(
                candidate_spec(
                    target,
                    word,
                    Some(#[trigger] exts.drop_last()[i]),
                    add_slash,
                    queries,
                ),
            ) is None by {
                assert(exts.drop_last()[i] == exts[i]);
            }
        }
        if no_candidate_parses(target, word, exts.drop_last(), add_slash, queries)
            && url_parse_spec(
            candidate_spec(target, word, Some(exts.last()), add_slash, queries),
        ) is None {
            assert forall|i: int| 0 <= i < exts.len() implies url_parse_spec(
                candidate_spec(target, word, Some(#[trigger] exts[i]), add_slash, queries),
            ) is None by {
                if i < exts.len() - 1 {
                    assert(exts[i] == exts.drop_last()[i]);
                }
            }
        }
    }
}

/// Law: whenever the extension-less candidate parses, it is the first URL
/// of the expansion.
pub proof fn lemma_expand_first(
    target: Seq<char>,
    word: Seq<char>,
    exts: Seq<Seq<char>>,
    add_slash: bool,
    queries: Seq<(Seq<char>, Seq<char>)>,
)
    ensures
        url_parse_spec(candidate_spec(target, word, None, add_slash, queries)) is Some ==> {
            let urls = expand_spec(target, word, exts, add_slash, queries);
            urls.len() >= 1 && urls[0] == url_parse_spec(
                candidate_spec(target, word, None, add_slash, queries),
            ).unwrap()
        },
    decreases exts.len(),
{
    if exts.len() > 0 {
        lemma_expand_first(target, word, exts.drop_last(), add_slash, queries);
    }
}

} // verus!
