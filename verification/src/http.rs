use vstd::prelude::*;

verus! {

/// `p` is a prefix of `s`.
pub open spec fn starts_with(s: Seq<char>, p: Seq<char>) -> bool {
    p.len() <= s.len() && s.subrange(0, p.len() as int) == p
}

/// No path separator occurs in `s` at or after `from`.
pub open spec fn segment_free(s: Seq<char>, from: int) -> bool {
    forall|k: int| from <= k < s.len() ==> s[k] != '/'
}

pub proof fn lemma_prefix_char(s: Seq<char>, p: Seq<char>, k: int)
    requires
        starts_with(s, p),
        0 <= k < p.len(),
    ensures
        s[k] == p[k],
{
    assert(s.subrange(0, p.len() as int)[k] == s[k]);
}

/// Character-for-character string equality.
fn str_eq(a: &str, b: &str) -> (r: bool)
    ensures
        r == (a@ == b@),
{
    let n = a.unicode_len();
    if n != b.unicode_len() {
        return false;
    }
    let mut i: usize = 0;
    while i < n
        invariant
            i <= n,
            n == a@.len(),
            n == b@.len(),
            forall|k: int| 0 <= k < i ==> a@[k] == b@[k],
        decreases n - i,
    {
        if a.get_char(i) != b.get_char(i) {
            return false;
        }
        i = i + 1;
    }
    proof {
        assert(a@ =~= b@);
    }
    true
}

/// Whether `p` is a prefix of `s`.
fn has_prefix(s: &str, p: &str) -> (r: bool)
    ensures
        r == starts_with(s@, p@),
{
    let m = p.unicode_len();
    if m > s.unicode_len() {
        return false;
    }
    let mut i: usize = 0;
    while i < m
        invariant
            i <= m,
            m == p@.len(),
            m <= s@.len(),
            forall|k: int| 0 <= k < i ==> s@[k] == p@[k],
        decreases m - i,
    {
        if s.get_char(i) != p.get_char(i) {
            proof {
                assert(s@.subrange(0, p@.len() as int)[i as int] == s@[i as int]);
            }
            return false;
        }
        i = i + 1;
    }
    proof {
        assert(s@.subrange(0, p@.len() as int) =~= p@);
    }
    true
}

/// Whether `s` holds no `'/'` at or after position `from`.
fn slash_free_from(s: &str, from: usize) -> (r: bool)
    requires
        from <= s@.len(),
    ensures
        r == segment_free(s@, from as int),
{
    let n = s.unicode_len();
    let mut i: usize = from;
    while i < n
        invariant
            from <= i <= n == s@.len(),
            forall|k: int| from <= k < i ==> s@[k] != '/',
        decreases n - i,
    {
        if s.get_char(i) == '/' {
            return false;
        }
        i = i + 1;
    }
    true
}

/// Where one request path is routed.
#[derive(Debug, PartialEq, Eq)]
pub enum RoutePlan {
    /// `/` redirects to the canonical app path `/app`.
    RedirectToApp,
    /// `/app` serves the primary HTML entry point.
    AppIndex,
    /// `/static/<rest>` serves `rest` from the "static" asset tree.
    StaticAsset { rest: String },
    /// `/dist/<rest>` serves `rest` from the "dist" asset tree.
    DistAsset { rest: String },
    /// `/hello/<name>`, a single further segment: the diagnostic echo.
    Hello { name: String },
    /// Everything else.
    NotFound,
}

/// The route table of the HTTP surface.  Each request path maps to
/// exactly one plan; the five route conditions are mutually exclusive.
pub fn route(path: &str) -> (r: RoutePlan)
    ensures
        ((r is RedirectToApp) <==> path@ == "/"@),
        ((r is AppIndex) <==> path@ == "/app"@),
        ((r is StaticAsset) <==> starts_with(path@, "/static/"@)),
        (r matches RoutePlan::StaticAsset { rest } ==> rest@ == path@.subrange(
            "/static/"@.len() as int,
            path@.len() as int,
        )),
        ((r is DistAsset) <==> starts_with(path@, "/dist/"@)),
        (r matches RoutePlan::DistAsset { rest } ==> rest@ == path@.subrange(
            "/dist/"@.len() as int,
            path@.len() as int,
        )),
        ((r is Hello) <==> starts_with(path@, "/hello/"@) && segment_free(
            path@,
            "/hello/"@.len() as int,
        )),
        (r matches RoutePlan::Hello { name } ==> name@ == path@.subrange(
            "/hello/"@.len() as int,
            path@.len() as int,
        )),
{
    proof {
        reveal_strlit("/");
        reveal_strlit("/app");
        reveal_strlit("/static/");
        reveal_strlit("/dist/");
        reveal_strlit("/hello/");
    }
    if str_eq(path, "/") {
        proof {
            assert("/"@.len() == 1);
            assert("/app"@.len() == 4);
        }
        RoutePlan::RedirectToApp
    } else if str_eq(path, "/app") {
        RoutePlan::AppIndex
    } else if has_prefix(path, "/static/") {
        proof {
            if starts_with(path@, "/dist/"@) {
                lemma_prefix_char(path@, "/static/"@, 1);
                lemma_prefix_char(path@, "/dist/"@, 1);
            }
            if starts_with(path@, "/hello/"@) {
                lemma_prefix_char(path@, "/static/"@, 1);
                lemma_prefix_char(path@, "/hello/"@, 1);
            }
        }
        let rest = path.substring_char(8, path.unicode_len()).to_owned();
        RoutePlan::StaticAsset { rest }
    } else if has_prefix(path, "/dist/") {
        proof {
            if starts_with(path@, "/hello/"@) {
                lemma_prefix_char(path@, "/dist/"@, 1);
                lemma_prefix_char(path@, "/hello/"@, 1);
            }
        }
        let rest = path.substring_char(6, path.unicode_len()).to_owned();
        RoutePlan::DistAsset { rest }
    } else if has_prefix(path, "/hello/") {
        proof {
            if starts_with(path@, "/static/"@) {
                lemma_prefix_char(path@, "/static/"@, 1);
                lemma_prefix_char(path@, "/hello/"@, 1);
            }
            if starts_with(path@, "/dist/"@) {
                lemma_prefix_char(path@, "/dist/"@, 1);
                lemma_prefix_char(path@, "/hello/"@, 1);
            }
        }
        if slash_free_from(path, 7) {
            let name = path.substring_char(7, path.unicode_len()).to_owned();
            RoutePlan::Hello { name }
        } else {
            RoutePlan::NotFound
        }
    } else {
        RoutePlan::NotFound
    }
}

/// The name of the content type that the extension of `path` maps to.
/// The mapping is a fixed table, a function of the path alone.
pub uninterp spec fn mime_of(path: Seq<char>) -> Seq<char>;

/// Relies on `mime_guess::from_path(..).first_or_octet_stream()`: the
/// content type inferred from the path's file extension by a fixed
/// table, `application/octet-stream` when the extension is unknown.
/// The result depends on the path alone and is never empty.
#[verifier::external_body]
fn content_type_for(path: &str) -> (r: String)
    ensures
        r@ == mime_of(path@),
        r@.len() > 0,
{
    let mime = mime_guess::from_path(path).first_or_octet_stream();
    mime.as_ref().to_owned()
}

/// A served HTTP response, as far as the asset routes determine it.
#[derive(Debug, PartialEq, Eq)]
pub struct AssetResponse {
    pub status: u16,
    pub content_type: String,
    pub body: Vec<u8>,
}

/// Builds the response for an asset route from the provider's lookup
/// result: the asset bytes under their inferred content type, or a
/// plain not-found response when the tree holds no such asset — never
/// a crash.
pub fn asset_response(path: &str, lookup: Option<Vec<u8>>) -> (r: AssetResponse)
    ensures
        (lookup matches Some(bytes) ==> r.status == 200 && r.body@ == bytes@ && r.content_type@
            == mime_of(path@)),
        (lookup is None ==> r.status == 404 && r.body@.len() == 0 && r.content_type@.len() == 0),
{
    match lookup {
        Some(bytes) => AssetResponse {
            status: 200,
            content_type: content_type_for(path),
            body: bytes,
        },
        None => AssetResponse { status: 404, content_type: String::new(), body: Vec::new() },
    }
}

/// The diagnostic echo body: `Hello, <name>!`.
pub fn hello_text(name: &str) -> (r: String)
    ensures
        r@ == "Hello, "@ + name@ + "!"@,
{
    let mut out = "Hello, ".to_owned();
    out.append(name);
    out.append("!");
    proof {
        assert(out@ =~= "Hello, "@ + name@ + "!"@);
    }
    out
}

} // verus!
