//! Rewriting of a request's path and of the upstream base into the URL
//! that the gateway calls.

use vstd::prelude::*;
use vstd::slice::slice_subrange;
use crate::failover::{bytes_view, content_type_is_html, names_html};
use crate::text::{
    chars_of, contains_text, eq_ignore_case, find_char, has_prefix, has_suffix, has_text, index_of,
    is_prefix_of, is_suffix_of, lower, lower_between, push_chars, push_str_chars, same_chars,
    same_ignore_case, strip_trailing, strip_trailing_len, text_of, trim_range, trimmed,
};

verus! {

/// The client version that a models request carries when it names none.
pub const DEFAULT_MODELS_CLIENT_VERSION: &'static str = "0.98.0";

/// The path of the models listing, with or without a query.
pub open spec fn is_models_path(path: Seq<char>) -> bool {
    path == "/v1/models"@ || is_prefix_of("/v1/models?"@, path)
}

/// A part of a query begins at `i`: at its start, or behind an `&`.
pub open spec fn is_part_start(query: Seq<char>, i: int) -> bool {
    0 <= i <= query.len() && (i == 0 || query[i - 1] == '&')
}

/// Where the key that begins at `i` ends: at the next `=` or `&`, or at the
/// end of the query.
pub open spec fn key_end(query: Seq<char>, i: int) -> int
    decreases query.len() - i,
{
    if i < 0 || i >= query.len() {
        query.len() as int
    } else if query[i] == '=' || query[i] == '&' {
        i
    } else {
        key_end(query, i + 1)
    }
}

/// A part of the query has the given key, up to ASCII case.
pub open spec fn has_query_key(query: Seq<char>, key: Seq<char>) -> bool {
    exists|i: int|
        is_part_start(query, i) && eq_ignore_case(
            query.subrange(i, #[trigger] key_end(query, i)),
            key,
        )
}

/// The query of a path: what follows its first `?`, if it has one.
pub open spec fn query_of(path: Seq<char>) -> Option<Seq<char>> {
    let k = index_of(path, '?', 0);
    if k < path.len() {
        Some(path.subrange(k + 1, path.len() as int))
    } else {
        None
    }
}

/// The path as the gateway sends it on: a models path whose query names no
/// client version gets the default one; every other path is itself.
pub open spec fn normalized_models_path(path: Seq<char>) -> Seq<char> {
    if !is_models_path(path) {
        path
    } else {
        match query_of(path) {
            Some(query) => if has_query_key(query, "client_version"@) {
                path
            } else {
                path + "&client_version="@ + DEFAULT_MODELS_CLIENT_VERSION@
            },
            None => path + "?client_version="@ + DEFAULT_MODELS_CLIENT_VERSION@,
        }
    }
}

fn scan_key_end(query: &[char], i: usize) -> (out: usize)
    requires
        i <= query.len(),
    ensures
        i <= out <= query.len(),
        out == key_end(query@, i as int),
{
    let mut j: usize = i;
    while j < query.len() && query[j] != '=' && query[j] != '&'
        invariant
            i <= j <= query.len(),
            key_end(query@, i as int) == key_end(query@, j as int),
        decreases query.len() - j,
    {
        j += 1;
    }
    j
}

/// Whether a part of the query has the given key, up to ASCII case.
pub fn query_has_key(query: &[char], key: &[char]) -> (out: bool)
    ensures
        out == has_query_key(query@, key@),
{
    let mut i: usize = 0;
    while i < query.len()
        invariant
            i <= query.len(),
            forall|k: int|
                0 <= k < i && is_part_start(query@, k) ==> !eq_ignore_case(
                    query@.subrange(k, #[trigger] key_end(query@, k)),
                    key@,
                ),
        decreases query.len() - i,
    {
        if i == 0 || query[i - 1] == '&' {
            let end = scan_key_end(query, i);
            if same_ignore_case(slice_subrange(query, i, end), key) {
                assert(is_part_start(query@, i as int));
                return true;
            }
        }
        i += 1;
    }
    let n: usize = query.len();
    if n == 0 || query[n - 1] == '&' {
        let end = scan_key_end(query, n);
        if same_ignore_case(slice_subrange(query, n, end), key) {
            assert(is_part_start(query@, n as int));
            return true;
        }
    }
    assert forall|k: int| is_part_start(query@, k) implies !eq_ignore_case(
        query@.subrange(k, #[trigger] key_end(query@, k)),
        key@,
    ) by {}
    false
}

/// Adds the default client version to a models path that names none.
pub fn normalize_models_path(path: &str) -> (out: String)
    ensures
        out@ == normalized_models_path(path@),
{
    let chars = chars_of(path);
    let exact = chars_of("/v1/models");
    let with_query = chars_of("/v1/models?");
    let is_models = same_chars(chars.as_slice(), exact.as_slice()) || has_prefix(
        chars.as_slice(),
        with_query.as_slice(),
    );
    if !is_models {
        return text_of(chars.as_slice());
    }
    let mark = find_char(chars.as_slice(), '?', 0);
    let mut out: Vec<char> = Vec::new();
    push_chars(&mut out, chars.as_slice());
    if mark < chars.len() {
        let query = slice_subrange(chars.as_slice(), mark + 1, chars.len());
        let key = chars_of("client_version");
        if query_has_key(query, key.as_slice()) {
            return text_of(chars.as_slice());
        }
        push_str_chars(&mut out, "&client_version=");
    } else {
        push_str_chars(&mut out, "?client_version=");
    }
    push_str_chars(&mut out, DEFAULT_MODELS_CLIENT_VERSION);
    assert(Seq::<char>::empty() + chars@ =~= chars@);
    text_of(out.as_slice())
}

/// The base names the codex backend: without its trailing slashes it ends
/// in `/backend-api/codex`.
pub open spec fn is_codex_base(base: Seq<char>) -> bool {
    is_suffix_of("/backend-api/codex"@, strip_trailing(base, '/'))
}

/// The base without its trailing slashes, followed by the path; where the
/// base ends in `/v1` and the path begins with `/v1/`, that segment stands
/// once.
pub open spec fn joined_url(base: Seq<char>, path: Seq<char>) -> Seq<char> {
    let root = strip_trailing(base, '/');
    if is_suffix_of("/v1"@, root) && is_prefix_of("/v1/"@, path) {
        root + path.subrange(3, path.len() as int)
    } else {
        root + path
    }
}

/// The URL to call and, where there is one, the alternate to try after it.
/// A models path on the codex backend is called without its `/v1` and has
/// the URL with it as its alternate; everything else is joined and has none.
pub open spec fn upstream_urls(base: Seq<char>, path: Seq<char>) -> (Seq<char>, Option<Seq<char>>) {
    let root = strip_trailing(base, '/');
    if is_codex_base(base) && is_models_path(path) {
        (root + path.subrange(3, path.len() as int), Some(root + path))
    } else {
        (joined_url(base, path), None)
    }
}

/// Computes the upstream URL of a path, and its alternate.
pub fn compute_upstream_url(base: &str, path: &str) -> (out: (String, Option<String>))
    ensures
        out.0@ == upstream_urls(base@, path@).0,
        match out.1 {
            Some(alt) => upstream_urls(base@, path@).1 == Some(alt@),
            None => upstream_urls(base@, path@).1 is None,
        },
{
    let base_chars = chars_of(base);
    let path_chars = chars_of(path);
    let root_len = strip_trailing_len(base_chars.as_slice(), '/');
    let root = slice_subrange(base_chars.as_slice(), 0, root_len);
    let codex = chars_of("/backend-api/codex");
    let exact = chars_of("/v1/models");
    let with_query = chars_of("/v1/models?");
    let is_models = same_chars(path_chars.as_slice(), exact.as_slice()) || has_prefix(
        path_chars.as_slice(),
        with_query.as_slice(),
    );
    proof {
        reveal_strlit("/v1/models");
        reveal_strlit("/v1/models?");
        reveal_strlit("/v1/");
    }
    if has_suffix(root, codex.as_slice()) && is_models {
        let mut primary: Vec<char> = Vec::new();
        push_chars(&mut primary, root);
        push_chars(&mut primary, slice_subrange(path_chars.as_slice(), 3, path_chars.len()));
        let mut alternate: Vec<char> = Vec::new();
        push_chars(&mut alternate, root);
        push_chars(&mut alternate, path_chars.as_slice());
        assert(primary@ =~= root@ + path@.subrange(3, path@.len() as int));
        assert(alternate@ =~= root@ + path@);
        return (text_of(primary.as_slice()), Some(text_of(alternate.as_slice())));
    }
    let v1 = chars_of("/v1");
    let v1_slash = chars_of("/v1/");
    let mut url: Vec<char> = Vec::new();
    push_chars(&mut url, root);
    if has_suffix(root, v1.as_slice()) && has_prefix(path_chars.as_slice(), v1_slash.as_slice()) {
        push_chars(&mut url, slice_subrange(path_chars.as_slice(), 3, path_chars.len()));
        assert(url@ =~= root@ + path@.subrange(3, path@.len() as int));
    } else {
        push_chars(&mut url, path_chars.as_slice());
        assert(url@ =~= root@ + path@);
    }
    (text_of(url.as_slice()), None)
}

/// The base, in lower case, begins with a host of the ChatGPT family.
pub open spec fn is_chatgpt_family(lowered: Seq<char>) -> bool {
    is_prefix_of("https://chatgpt.com"@, lowered) || is_prefix_of(
        "https://chat.openai.com"@,
        lowered,
    )
}

/// The base as the gateway uses it: trimmed, without trailing slashes, and,
/// where it names a host of the ChatGPT family and no backend path yet,
/// followed by `/backend-api/codex`.
pub open spec fn normalized_base(base: Seq<char>) -> Seq<char> {
    let root = strip_trailing(trimmed(base), '/');
    if is_chatgpt_family(lower(root)) && !contains_text(lower(root), "/backend-api"@) {
        root + "/backend-api/codex"@
    } else {
        root
    }
}

/// Normalizes a configured upstream base.
pub fn normalize_upstream_base_url(base: &str) -> (out: String)
    ensures
        out@ == normalized_base(base@),
{
    let chars = chars_of(base);
    let (from, to) = trim_range(chars.as_slice());
    let inner = slice_subrange(chars.as_slice(), from, to);
    let root_len = strip_trailing_len(inner, '/');
    let root = slice_subrange(inner, 0, root_len);
    let lowered = lower_between(root, 0, root.len());
    assert(root@.subrange(0, root@.len() as int) == root@);
    let host = chars_of("https://chatgpt.com");
    let other_host = chars_of("https://chat.openai.com");
    let backend = chars_of("/backend-api");
    let family = has_prefix(lowered.as_slice(), host.as_slice()) || has_prefix(
        lowered.as_slice(),
        other_host.as_slice(),
    );
    let mut out: Vec<char> = Vec::new();
    push_chars(&mut out, root);
    assert(out@ =~= root@);
    if family && !has_text(lowered.as_slice(), backend.as_slice()) {
        push_str_chars(&mut out, "/backend-api/codex");
    }
    text_of(out.as_slice())
}

/// The base that a request falls back to from the codex backend.
pub const OPENAI_FALLBACK_BASE: &'static str = "https://api.openai.com/v1";

/// The base to fall back to, which only the codex backend has.
pub fn resolve_upstream_fallback_base_url(base: &str) -> (out: Option<String>)
    ensures
        match out {
            Some(fallback) => is_codex_base(base@) && fallback@ == OPENAI_FALLBACK_BASE@,
            None => !is_codex_base(base@),
        },
{
    let base_chars = chars_of(base);
    let root_len = strip_trailing_len(base_chars.as_slice(), '/');
    let root = slice_subrange(base_chars.as_slice(), 0, root_len);
    let codex = chars_of("/backend-api/codex");
    if has_suffix(root, codex.as_slice()) {
        let fallback = chars_of(OPENAI_FALLBACK_BASE);
        Some(text_of(fallback.as_slice()))
    } else {
        None
    }
}

/// Whether a request that failed on the codex backend may be tried on the
/// fallback base: the primary base is the codex backend, the path is no
/// models path, and the answer's content type does not name HTML.
pub open spec fn fallback_eligible(
    base: Seq<char>,
    path: Seq<char>,
    content_type: Option<Seq<u8>>,
) -> bool {
    is_codex_base(base) && !is_models_path(path) && !names_html(content_type)
}

/// Decides whether to try the fallback base.
pub fn should_try_openai_fallback(base: &str, path: &str, content_type: Option<&[u8]>) -> (out:
    bool)
    ensures
        out == fallback_eligible(base@, path@, bytes_view(content_type)),
{
    let base_chars = chars_of(base);
    let root_len = strip_trailing_len(base_chars.as_slice(), '/');
    let root = slice_subrange(base_chars.as_slice(), 0, root_len);
    let codex = chars_of("/backend-api/codex");
    if !has_suffix(root, codex.as_slice()) {
        return false;
    }
    let path_chars = chars_of(path);
    let exact = chars_of("/v1/models");
    let with_query = chars_of("/v1/models?");
    if same_chars(path_chars.as_slice(), exact.as_slice()) || has_prefix(
        path_chars.as_slice(),
        with_query.as_slice(),
    ) {
        return false;
    }
    !content_type_is_html(content_type)
}

/// A base that names no host of the ChatGPT family, or that already has a
/// backend path, only loses the white space around it and its trailing
/// slashes.
pub proof fn lemma_other_bases_unchanged(base: Seq<char>)
    requires
        !is_chatgpt_family(lower(strip_trailing(trimmed(base), '/'))) || contains_text(
            lower(strip_trailing(trimmed(base), '/')),
            "/backend-api"@,
        ),
    ensures
        normalized_base(base) == strip_trailing(trimmed(base), '/'),
{
}

proof fn lemma_index_of_first(s: Seq<char>, c: char, from: int, r: int)
    requires
        0 <= from <= r <= s.len(),
        forall|j: int| from <= j < r ==> s[j] != c,
        r < s.len() ==> s[r] == c,
    ensures
        index_of(s, c, from) == r,
    decreases r - from,
{
    if from < r {
        lemma_index_of_first(s, c, from + 1, r);
    }
}

proof fn lemma_key_end_at(query: Seq<char>, i: int, j: int)
    requires
        0 <= i <= j <= query.len(),
        forall|k: int| i <= k < j ==> query[k] != '=' && query[k] != '&',
        j < query.len() ==> query[j] == '=' || query[j] == '&',
    ensures
        key_end(query, i) == j,
    decreases j - i,
{
    if i < j {
        lemma_key_end_at(query, i + 1, j);
    }
}

proof fn lemma_index_of_bounds(s: Seq<char>, c: char, from: int)
    requires
        0 <= from <= s.len(),
    ensures
        from <= index_of(s, c, from) <= s.len(),
        forall|j: int| from <= j < index_of(s, c, from) ==> s[j] != c,
        index_of(s, c, from) < s.len() ==> s[index_of(s, c, from)] == c,
    decreases s.len() - from,
{
    if from < s.len() && s[from] != c {
        lemma_index_of_bounds(s, c, from + 1);
    }
}

/// Normalizing a path a second time changes nothing.
pub proof fn lemma_normalize_models_path_idempotent(path: Seq<char>)
    ensures
        normalized_models_path(normalized_models_path(path)) == normalized_models_path(path),
{
    reveal_strlit("/v1/models");
    reveal_strlit("/v1/models?");
    reveal_strlit("client_version");
    reveal_strlit("&client_version=");
    reveal_strlit("?client_version=");
    let once = normalized_models_path(path);
    let key = "client_version"@;
    let version = DEFAULT_MODELS_CLIENT_VERSION@;
    if is_models_path(path) {
        lemma_index_of_bounds(path, '?', 0);
        let k = index_of(path, '?', 0);
        if k < path.len() {
            let query = path.subrange(k + 1, path.len() as int);
            if !has_query_key(query, key) {
                let added = "&client_version="@;
                assert(once == path + added + version);
                assert(path != "/v1/models"@) by {
                    if path == "/v1/models"@ {
                        assert(path[k] == '?');
                    }
                }
                assert(is_prefix_of("/v1/models?"@, once)) by {
                    assert(once.subrange(0, 11) =~= path.subrange(0, 11));
                }
                assert(is_models_path(once));
                assert forall|j: int| 0 <= j < k implies once[j] != '?' by {
                    assert(once[j] == path[j]);
                }
                assert(once[k] == path[k]);
                lemma_index_of_first(once, '?', 0, k);
                let query2 = once.subrange(k + 1, once.len() as int);
                assert(query2 =~= query + added + version);
                let i: int = query.len() as int + 1;
                assert(query2[i - 1] == added[0]);
                assert(is_part_start(query2, i));
                assert forall|m: int| i <= m < i + 14 implies query2[m] != '=' && query2[m]
                    != '&' by {
                    assert(query2[m] == added[m - query.len()]);
                    assert(added[m - query.len()] == key[m - i]);
                }
                assert(query2[i + 14] == added[15]);
                lemma_key_end_at(query2, i, i + 14);
                assert(query2.subrange(i, i + 14) =~= key) by {
                    assert forall|m: int| 0 <= m < 14 implies query2.subrange(i, i + 14)[m]
                        == key[m] by {
                        assert(query2[i + m] == added[m + 1]);
                    }
                }
                assert(has_query_key(query2, key));
            }
        } else {
            let added = "?client_version="@;
            assert(path == "/v1/models"@) by {
                if is_prefix_of("/v1/models?"@, path) {
                    assert(path.subrange(0, 11)[10] == '?');
                    assert(path[10] != '?');
                }
            }
            assert(once == path + added + version);
            assert(is_prefix_of("/v1/models?"@, once)) by {
                assert(once.subrange(0, 11) =~= "/v1/models?"@);
            }
            assert forall|j: int| 0 <= j < 10 implies once[j] != '?' by {
                assert(once[j] == path[j]);
            }
            assert(once[10] == added[0]);
            lemma_index_of_first(once, '?', 0, 10);
            let query2 = once.subrange(11, once.len() as int);
            assert forall|m: int| 0 <= m < 14 implies query2[m] != '=' && query2[m] != '&' by {
                assert(query2[m] == added[m + 1]);
                assert(added[m + 1] == key[m]);
            }
            assert(query2[14] == added[15]);
            lemma_key_end_at(query2, 0, 14);
            assert(query2.subrange(0, 14) =~= key) by {
                assert forall|m: int| 0 <= m < 14 implies query2.subrange(0, 14)[m] == key[m] by {
                    assert(query2[m] == added[m + 1]);
                }
            }
            assert(is_part_start(query2, 0));
            assert(has_query_key(query2, key));
        }
    }
}

/// A path that is no models path is sent on as it is.
pub proof fn lemma_other_paths_unchanged(path: Seq<char>)
    requires
        !is_models_path(path),
    ensures
        normalized_models_path(path) == path,
{
}

/// A models path whose query names a client version, in whatever case, is
/// sent on as it is.
pub proof fn lemma_client_version_kept(path: Seq<char>)
    requires
        is_models_path(path),
        query_of(path) is Some,
        has_query_key(query_of(path)->0, "client_version"@),
    ensures
        normalized_models_path(path) == path,
{
}

} // verus!
