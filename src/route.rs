//! Classification of request paths.
use vstd::prelude::*;
use vstd::string::StrSliceExecFns;
use vstd::string::StringExecFns;

verus! {

/// The output that a request asks for.
#[derive(Clone, Copy, Debug, PartialEq, Eq, Structural)]
pub enum Format {
    Image,
    Json,
}

/// What a request path asks for.
#[derive(Debug)]
pub enum Route {
    /// The bare root path.
    Root,
    /// `/avatar/<id>.png`, holding the id text.
    AvatarImage(String),
    /// `/avatar/<id>.json`, holding the id text.
    AvatarJson(String),
    /// A path outside `/avatar/`.
    NotFound,
    /// A path under `/avatar/` with neither known suffix.
    InvalidFormat,
}

pub enum RouteView {
    Root,
    AvatarImage(Seq<char>),
    AvatarJson(Seq<char>),
    NotFound,
    InvalidFormat,
}

impl View for Route {
    type V = RouteView;

    open spec fn view(&self) -> RouteView {
        match self {
            Route::Root => RouteView::Root,
            Route::AvatarImage(id) => RouteView::AvatarImage(id@),
            Route::AvatarJson(id) => RouteView::AvatarJson(id@),
            Route::NotFound => RouteView::NotFound,
            Route::InvalidFormat => RouteView::InvalidFormat,
        }
    }
}

pub open spec fn has_prefix(s: Seq<char>, p: Seq<char>) -> bool {
    p.len() <= s.len() && s.subrange(0, p.len() as int) == p
}

pub open spec fn has_suffix(s: Seq<char>, x: Seq<char>) -> bool {
    x.len() <= s.len() && s.subrange(s.len() - x.len(), s.len() as int) == x
}

/// `s` without its last `n` characters.
pub open spec fn drop_end(s: Seq<char>, n: nat) -> Seq<char> {
    s.subrange(0, s.len() - n)
}

/// What the path `p` asks for: the suffix `.png` picks the image, `.json` the profile.
pub open spec fn route_of(p: Seq<char>) -> RouteView {
    if p == "/"@ {
        RouteView::Root
    } else if !has_prefix(p, "/avatar/"@) {
        RouteView::NotFound
    } else {
        let rest = p.skip("/avatar/"@.len() as int);
        if has_suffix(rest, ".png"@) {
            RouteView::AvatarImage(drop_end(rest, ".png"@.len()))
        } else if has_suffix(rest, ".json"@) {
            RouteView::AvatarJson(drop_end(rest, ".json"@.len()))
        } else {
            RouteView::InvalidFormat
        }
    }
}

fn strip_prefix<'a>(s: &'a str, p: &str) -> (r: Option<&'a str>)
    ensures
        match r {
            Some(rest) => has_prefix(s@, p@) && rest@ == s@.skip(p@.len() as int),
            None => !has_prefix(s@, p@),
        },
{
    let n = s.unicode_len();
    let m = p.unicode_len();
    if m > n {
        return None;
    }
    let mut i: usize = 0;
    while i < m
        invariant
            i <= m <= n,
            n == s@.len(),
            m == p@.len(),
            forall|j: int| 0 <= j < i ==> s@[j] == p@[j],
        decreases m - i,
    {
        if s.get_char(i) != p.get_char(i) {
            assert(s@.subrange(0, m as int)[i as int] != p@[i as int]);
            return None;
        }
        i = i + 1;
    }
    assert(s@.subrange(0, m as int) =~= p@);
    Some(s.substring_char(m, n))
}

fn strip_suffix<'a>(s: &'a str, x: &str) -> (r: Option<&'a str>)
    ensures
        match r {
            Some(rest) => has_suffix(s@, x@) && rest@ == drop_end(s@, x@.len()),
            None => !has_suffix(s@, x@),
        },
{
    let n = s.unicode_len();
    let m = x.unicode_len();
    if m > n {
        return None;
    }
    let start = n - m;
    let mut i: usize = 0;
    while i < m
        invariant
            i <= m <= n,
            start == n - m,
            n == s@.len(),
            m == x@.len(),
            forall|j: int| 0 <= j < i ==> s@[start + j] == x@[j],
        decreases m - i,
    {
        if s.get_char(start + i) != x.get_char(i) {
            assert(s@.subrange(start as int, n as int)[i as int] != x@[i as int]);
            return None;
        }
        i = i + 1;
    }
    assert(s@.subrange(start as int, n as int) =~= x@);
    Some(s.substring_char(0, start))
}

/// Classifies a request path.
pub fn route(path: &str) -> (r: Route)
    ensures
        r@ == route_of(path@),
{
    proof {
        reveal_strlit("/");
    }
    if path.unicode_len() == 1 && path.get_char(0) == '/' {
        assert(path@ =~= "/"@);
        return Route::Root;
    }
    assert(path@ != "/"@);
    let rest = match strip_prefix(path, "/avatar/") {
        None => return Route::NotFound,
        Some(rest) => rest,
    };
    if let Some(id) = strip_suffix(rest, ".png") {
        return Route::AvatarImage(String::from_str(id));
    }
    if let Some(id) = strip_suffix(rest, ".json") {
        return Route::AvatarJson(String::from_str(id));
    }
    Route::InvalidFormat
}

/// Whatever the format asked for, the id taken from an avatar path is the same.
pub proof fn lemma_route_id_independent_of_format(id: Seq<char>)
    ensures
        route_of("/avatar/"@ + id + ".png"@) == RouteView::AvatarImage(id),
        route_of("/avatar/"@ + id + ".json"@) == RouteView::AvatarJson(id),
{
    reveal_strlit("/");
    reveal_strlit("/avatar/");
    reveal_strlit(".png");
    reveal_strlit(".json");
    let png = "/avatar/"@ + id + ".png"@;
    let json = "/avatar/"@ + id + ".json"@;
    assert(png.subrange(0, 8) =~= "/avatar/"@);
    assert(json.subrange(0, 8) =~= "/avatar/"@);
    assert(png.len() != 1);
    assert(json.len() != 1);
    let prest = png.skip(8);
    let jrest = json.skip(8);
    assert(prest =~= id + ".png"@);
    assert(jrest =~= id + ".json"@);
    assert(prest.subrange(prest.len() - 4, prest.len() as int) =~= ".png"@);
    assert(drop_end(prest, 4) =~= id);
    assert(jrest.subrange(jrest.len() - 4, jrest.len() as int)[0] == 'j');
    assert(!has_suffix(jrest, ".png"@));
    assert(jrest.subrange(jrest.len() - 5, jrest.len() as int) =~= ".json"@);
    assert(drop_end(jrest, 5) =~= id);
}

} // verus!
