//! The REST boundary: which operation a request asks for, and with which
//! status it is answered.

use crate::text::{
    chars_of, find_char, first_index_of, has_prefix, has_prefix_at,
};
use vstd::prelude::*;
use vstd::string::*;

verus! {

/// The operation that a request asks for.
#[derive(Debug)]
pub enum Route {
    /// `GET /health`.
    Health,
    /// `POST /chat/messages`.
    PostMessage,
    /// `GET /chat/messages/{room_id}`.
    GetMessages { room_id: String },
    /// Any `OPTIONS` request: the preflight of a cross-origin call.
    Preflight,
    /// Anything else.
    NotFound,
}

/// A route as a mathematical value.
pub enum RouteView {
    Health,
    PostMessage,
    GetMessages { room_id: Seq<char> },
    Preflight,
    NotFound,
}

impl View for Route {
    type V = RouteView;

    open spec fn view(&self) -> RouteView {
        match self {
            Route::Health => RouteView::Health,
            Route::PostMessage => RouteView::PostMessage,
            Route::GetMessages { room_id } => RouteView::GetMessages { room_id: room_id@ },
            Route::Preflight => RouteView::Preflight,
            Route::NotFound => RouteView::NotFound,
        }
    }
}

/// `path` without one slash at its front.
pub open spec fn without_leading_slash(path: Seq<char>) -> Seq<char> {
    if path.len() > 0 && path[0] == '/' {
        path.skip(1)
    } else {
        path
    }
}

/// The path of a request once the deployment stage is taken off its front.
/// Without a configured stage the path stays as it is. With one, the path
/// gets exactly one leading slash, and its first segment is dropped where it
/// is the stage's name.
pub open spec fn cleaned_path(path: Seq<char>, stage: Option<Seq<char>>) -> Seq<char> {
    match stage {
        None => path,
        Some(stage_name) => {
            let inner = without_leading_slash(path);
            let cut = first_index_of(inner, '/');
            if inner.take(cut) == stage_name {
                if cut < inner.len() {
                    seq!['/'] + inner.skip(cut + 1)
                } else {
                    seq!['/']
                }
            } else {
                seq!['/'] + inner
            }
        },
    }
}

/// `s` without any repetition of `prefix` at its front.
pub open spec fn without_leading(s: Seq<char>, prefix: Seq<char>) -> Seq<char>
    decreases s.len(),
{
    if prefix.len() > 0 && has_prefix(s, prefix) {
        without_leading(s.skip(prefix.len() as int), prefix)
    } else {
        s
    }
}

/// The operation that `method` on the cleaned path `path` asks for.
pub open spec fn route_of(method: Seq<char>, path: Seq<char>) -> RouteView {
    if method == "GET"@ && path == "/health"@ {
        RouteView::Health
    } else if method == "POST"@ && path == "/chat/messages"@ {
        RouteView::PostMessage
    } else if method == "GET"@ && has_prefix(path, "/chat/messages/"@) {
        RouteView::GetMessages { room_id: without_leading(path, "/chat/messages/"@) }
    } else if method == "OPTIONS"@ {
        RouteView::Preflight
    } else {
        RouteView::NotFound
    }
}

/// The status with which an operation is answered. A failure of any
/// operation shows as 500, with no detail.
pub open spec fn status_of(route: RouteView, succeeded: bool) -> u16 {
    match route {
        RouteView::Preflight => 204,
        RouteView::NotFound => 404,
        RouteView::PostMessage => if succeeded {
            201
        } else {
            500
        },
        _ => if succeeded {
            200
        } else {
            500
        },
    }
}

fn same_chars(a: &Vec<char>, upto: usize, b: &Vec<char>) -> (r: bool)
    requires
        upto <= a.len(),
    ensures
        r == (a@.take(upto as int) == b@),
{
    if b.len() != upto {
        return false;
    }
    let mut i: usize = 0;
    while i < upto
        invariant
            i <= upto,
            upto <= a.len(),
            b.len() == upto,
            forall|k: int| 0 <= k < i ==> a@[k] == b@[k],
        decreases upto - i,
    {
        if a[i] != b[i] {
            assert(a@.take(upto as int)[i as int] != b@[i as int]);
            return false;
        }
        i = i + 1;
    }
    assert(a@.take(upto as int) =~= b@);
    true
}

/// Takes the deployment stage off the front of a request's path.
pub fn clean_path(path: &str, stage: Option<&str>) -> (r: String)
    ensures
        r@ == cleaned_path(
            path@,
            match stage {
                Some(s) => Some(s@),
                None => None,
            },
        ),
{
    let stage_name = match stage {
        None => { return String::from_str(path); },
        Some(s) => s,
    };
    proof {
        reveal_strlit("/");
    }
    let all = chars_of(path);
    let n = all.len();
    let inner_str = if n > 0 && all[0] == '/' {
        let t = path.substring_char(1, n);
        assert(t@ =~= path@.skip(1));
        t
    } else {
        path
    };
    let inner = chars_of(inner_str);
    let cut = find_char(&inner, '/');
    let wanted = chars_of(stage_name);
    let mut out = String::from_str("/");
    if same_chars(&inner, cut, &wanted) {
        if cut < inner.len() {
            let rest = inner_str.substring_char(cut + 1, inner.len());
            assert(rest@ =~= inner@.skip(cut + 1));
            out.append(rest);
        }
    } else {
        out.append(inner_str);
    }
    assert(out@ =~= cleaned_path(path@, Some(stage_name@)));
    out
}

/// `s` without any repetition of `prefix` at its front.
pub fn trim_start_matches<'a>(s: &'a str, prefix: &str) -> (r: &'a str)
    ensures
        r@ == without_leading(s@, prefix@),
{
    let all = chars_of(s);
    let wanted = chars_of(prefix);
    let mut from: usize = 0;
    if wanted.len() > 0 {
        assert(s@.skip(0) =~= s@);
        while has_prefix_at(&all, from, &wanted)
            invariant
                from <= all.len(),
                all@ == s@,
                wanted@ == prefix@,
                wanted.len() > 0,
                without_leading(s@, prefix@) == without_leading(s@.skip(from as int), prefix@),
            decreases all.len() - from,
        {
            assert(s@.skip(from as int).skip(wanted.len() as int) =~= s@.skip(
                from + wanted.len(),
            ));
            from = from + wanted.len();
        }
    }
    let r = s.substring_char(from, all.len());
    assert(r@ =~= s@.skip(from as int));
    r
}

/// Decides which operation `method` on the cleaned path `path` asks for.
pub fn route(method: &str, path: &str) -> (r: Route)
    ensures
        r@ == route_of(method@, path@),
{
    let method = String::from_str(method);
    let is_get = method == String::from_str("GET");
    let whole = String::from_str(path);
    if is_get && whole == String::from_str("/health") {
        return Route::Health;
    }
    if method == String::from_str("POST") && whole == String::from_str("/chat/messages") {
        return Route::PostMessage;
    }
    if is_get {
        let all = chars_of(path);
        let prefix = chars_of("/chat/messages/");
        assert(all@.skip(0) =~= all@);
        if has_prefix_at(&all, 0, &prefix) {
            let room_id = trim_start_matches(path, "/chat/messages/");
            return Route::GetMessages { room_id: String::from_str(room_id) };
        }
    }
    if method == String::from_str("OPTIONS") {
        Route::Preflight
    } else {
        Route::NotFound
    }
}

/// The status with which `route` is answered, given whether its operation
/// succeeded.
pub fn status(route: &Route, succeeded: bool) -> (r: u16)
    ensures
        r == status_of(route@, succeeded),
{
    match route {
        Route::Preflight => 204,
        Route::NotFound => 404,
        Route::PostMessage => if succeeded {
            201
        } else {
            500
        },
        _ => if succeeded {
            200
        } else {
            500
        },
    }
}

/// No failure shows as anything but 500: whatever went wrong in posting or
/// reading, the answer tells the client nothing of it.
pub proof fn law_failures_are_opaque(route: RouteView)
    ensures
        route is Health || route is PostMessage || route is GetMessages ==> status_of(route, false)
            == 500,
{
}

} // verus!
