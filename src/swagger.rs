//! Which Swagger UI file a request asks for, given the route it matched.
use vstd::prelude::*;
use crate::naming::{chars_of, string_of};

verus! {

/// The index of the first `c` in `s` at or after `i`; `s.len()` if there is none.
pub open spec fn index_of(s: Seq<char>, c: char, i: int) -> int
    decreases s.len() - i,
{
    if i < 0 || i >= s.len() {
        s.len() as int
    } else if s[i] == c {
        i
    } else {
        index_of(s, c, i + 1)
    }
}

/// The fixed part of a route: everything before its first `<` parameter.
pub open spec fn route_prefix(route: Seq<char>) -> Seq<char> {
    route.take(index_of(route, '<', 0))
}

proof fn lemma_index_bounds(s: Seq<char>, c: char, i: int)
    requires
        0 <= i <= s.len(),
    ensures
        i <= index_of(s, c, i) <= s.len(),
    decreases s.len() - i,
{
    if i < s.len() && s[i] != c {
        lemma_index_bounds(s, c, i + 1);
    }
}

/// The file path that `request` names below `route`: what follows the
/// route's fixed part; `None` where the request is shorter than that part.
pub fn file_path(route: &str, request: &str) -> (r: Option<String>)
    ensures
        r is Some <==> request@.len() >= route_prefix(route@).len(),
        r matches Some(p) ==> p@ == request@.skip(route_prefix(route@).len() as int),
{
    let route_chars = chars_of(route);
    let mut end: usize = 0;
    proof {
        lemma_index_bounds(route@, '<', 0);
    }
    while end < route_chars.len() && route_chars[end] != '<'
        invariant
            end <= route_chars@.len(),
            route_chars@ == route@,
            index_of(route@, '<', 0) == index_of(route@, '<', end as int),
        decreases route_chars@.len() - end,
    {
        end = end + 1;
    }
    let request_chars = chars_of(request);
    if request_chars.len() < end {
        return None;
    }
    let mut rest: Vec<char> = Vec::new();
    let mut i: usize = end;
    while i < request_chars.len()
        invariant
            end <= i <= request_chars@.len(),
            rest@ == request_chars@.subrange(end as int, i as int),
        decreases request_chars@.len() - i,
    {
        rest.push(request_chars[i]);
        i = i + 1;
        assert(rest@ =~= request_chars@.subrange(end as int, i as int));
    }
    assert(rest@ =~= request@.skip(end as int));
    Some(string_of(&rest))
}

} // verus!
