//! The `#` fragment router of the html templating: which template a fragment
//! names, the parameter a fragment carries, and the body of a fetched page.

use vstd::prelude::*;
use crate::text::find_chars;
use crate::text::first_occurrence;
use crate::text::lemma_first_occurrence_at;
use crate::text::occurs_at;
use crate::text::str_to_chars;
use crate::text::decimal;
use crate::text::lemma_decimal_has_no_dot;
use crate::text::lemma_parse_usize_decimal;
use crate::text::parse_usize_spec;

verus! {

/// The first position from `i` on that holds a dot, or the length of `s`.
pub open spec fn next_dot(s: Seq<char>, i: int) -> int
    decreases s.len() - i,
{
    if i < 0 || i >= s.len() {
        s.len() as int
    } else if s[i] == '.' {
        i
    } else {
        next_dot(s, i + 1)
    }
}

proof fn lemma_next_dot_range(s: Seq<char>, i: int)
    requires
        0 <= i <= s.len(),
    ensures
        i <= next_dot(s, i) <= s.len(),
    decreases s.len() - i,
{
    if i < s.len() && s[i] != '.' {
        lemma_next_dot_range(s, i + 1);
    }
}

/// The parameter of a local route: what stands between its first dot and the
/// dot after it, or the end. For `#p03.1234` it is `1234`.
pub open spec fn url_param_in_hash_after_dot_spec(s: Seq<char>) -> Seq<char> {
    let a = next_dot(s, 0);
    s.subrange(a + 1, next_dot(s, a + 1))
}

fn next_dot_exec(v: &Vec<char>, i: usize) -> (r: usize)
    requires
        i <= v@.len(),
    ensures
        r == next_dot(v@, i as int),
{
    let n = v.len();
    let mut k: usize = i;
    while k < n
        invariant
            n == v@.len(),
            i <= k <= n,
            next_dot(v@, i as int) == next_dot(v@, k as int),
        decreases n - k,
    {
        if v[k] == '.' {
            return k;
        }
        k = k + 1;
    }
    n
}

/// The first parameter after a dot in a local route: for `&p03.1234` it is
/// `1234`. The route must hold a dot.
pub fn get_url_param_in_hash_after_dot(short_local_route: &str) -> (r: &str)
    requires
        short_local_route@.contains('.'),
    ensures
        r@ == url_param_in_hash_after_dot_spec(short_local_route@),
{
    let v = str_to_chars(short_local_route);
    let n = v.len();
    let a = next_dot_exec(&v, 0);
    proof {
        lemma_next_dot_range(v@, 0);
        if a == v@.len() {
            let j = choose|j: int| 0 <= j < v@.len() && v@[j] == '.';
            lemma_first_dot(v@, 0, j);
        }
    }
    assert(a < n);
    let b = next_dot_exec(&v, a + 1);
    proof {
        lemma_next_dot_range(v@, a + 1);
    }
    short_local_route.substring_char(a + 1, b)
}

proof fn lemma_first_dot(s: Seq<char>, i: int, j: int)
    requires
        0 <= i <= j < s.len(),
        s[j] == '.',
    ensures
        next_dot(s, i) <= j,
    decreases j - i,
{
    if s[i] != '.' {
        lemma_first_dot(s, i + 1, j);
    }
}

proof fn lemma_next_dot_is(s: Seq<char>, i: int, j: int)
    requires
        0 <= i <= j <= s.len(),
        forall|k: int| i <= k < j ==> s[k] != '.',
        j == s.len() || s[j] == '.',
    ensures
        next_dot(s, i) == j,
    decreases j - i,
{
    if i < j {
        lemma_next_dot_is(s, i + 1, j);
    }
}

/// A route made of a name without dots, a dot and a parameter without dots
/// gives that parameter back.
pub proof fn lemma_url_param_roundtrip(name: Seq<char>, param: Seq<char>)
    requires
        !name.contains('.'),
        !param.contains('.'),
    ensures
        url_param_in_hash_after_dot_spec(name + seq!['.'] + param) == param,
{
    let s = name + seq!['.'] + param;
    let a = name.len() as int;
    assert forall|k: int| 0 <= k < a implies s[k] != '.' by {
        assert(s[k] == name[k]);
    }
    lemma_next_dot_is(s, 0, a);
    assert forall|k: int| a + 1 <= k < s.len() implies s[k] != '.' by {
        assert(s[k] == param[k - a - 1]);
    }
    lemma_next_dot_is(s, a + 1, s.len() as int);
    assert(s.subrange(a + 1, s.len() as int) =~= param);
}

/// The route that joins a group gives back the group id, when the id has no
/// dot: what `join_group_hash` writes, `get_url_param_in_hash_after_dot`
/// reads.
pub proof fn lemma_join_group_hash_param(group_id: Seq<char>)
    requires
        !group_id.contains('.'),
    ensures
        url_param_in_hash_after_dot_spec(crate::fncallermod::join_group_hash_spec(group_id))
            == group_id,
{
    reveal_strlit("#p04.");
    reveal_strlit("#p04");
    assert("#p04."@ =~= "#p04"@ + seq!['.']);
    assert(!"#p04"@.contains('.')) by {
        if "#p04"@.contains('.') {
            let k = choose|k: int| 0 <= k < "#p04"@.len() && "#p04"@[k] == '.';
        }
    }
    lemma_url_param_roundtrip("#p04"@, group_id);
}

/// The route of the link to join a player's group gives back that player's
/// websocket id, which reads back as the same number.
pub proof fn lemma_join_link_param(my_ws_uid: usize)
    ensures
        url_param_in_hash_after_dot_spec("#p03."@ + decimal(my_ws_uid as nat)) == decimal(
            my_ws_uid as nat,
        ),
        parse_usize_spec(url_param_in_hash_after_dot_spec("#p03."@ + decimal(my_ws_uid as nat)))
            == Some(my_ws_uid),
{
    reveal_strlit("#p03.");
    reveal_strlit("#p03");
    assert("#p03."@ =~= "#p03"@ + seq!['.']);
    let d = decimal(my_ws_uid as nat);
    lemma_decimal_has_no_dot(my_ws_uid as nat);
    assert(!"#p03"@.contains('.')) by {
        if "#p03"@.contains('.') {
            let k = choose|k: int| 0 <= k < "#p03"@.len() && "#p03"@[k] == '.';
        }
    }
    lemma_url_param_roundtrip("#p03"@, d);
    lemma_parse_usize_decimal(my_ws_uid);
}

/// Whether the html between the body tags of a page can be taken: when the
/// page has `<body>`, `</body>` must come after it.
pub open spec fn has_body_end(s: Seq<char>) -> bool {
    match first_occurrence(s, "<body>"@) {
        Some(b) => first_occurrence(s, "</body>"@) matches Some(e) && e >= b + 6,
        None => true,
    }
}

/// The html between the first `<body>` and the first `</body>` of a fetched
/// page; the whole page when it has no `<body>`.
pub open spec fn between_body_tag_spec(s: Seq<char>) -> Seq<char> {
    match first_occurrence(s, "<body>"@) {
        Some(b) => s.subrange(b + 6, first_occurrence(s, "</body>"@)->Some_0),
        None => s,
    }
}

/// A page made of a head, `<body>`, a body, `</body>` and a tail, where
/// neither the head nor the body holds a `<`, gives back exactly its body.
pub proof fn lemma_between_body_tag(head: Seq<char>, body: Seq<char>, tail: Seq<char>)
    requires
        !head.contains('<'),
        !body.contains('<'),
    ensures
        has_body_end(head + "<body>"@ + body + "</body>"@ + tail),
        between_body_tag_spec(head + "<body>"@ + body + "</body>"@ + tail) == body,
{
    reveal_strlit("<body>");
    reveal_strlit("</body>");
    let o = "<body>"@;
    let c = "</body>"@;
    let s = head + o + body + c + tail;
    let p = head.len() as int;
    let e = p + 6 + body.len();
    assert forall|q: int| 0 <= q < p implies !occurs_at(s, o, q) by {
        assert(s[q] == head[q]);
        if occurs_at(s, o, q) {
            assert(s.subrange(q, q + 6)[0] == o[0]);
        }
    }
    assert(s.subrange(p, p + 6) =~= o);
    lemma_first_occurrence_at(s, o, 0, p);
    assert forall|q: int| 0 <= q < e implies !occurs_at(s, c, q) by {
        if occurs_at(s, c, q) {
            assert(s.subrange(q, q + 7)[0] == c[0]);
            if q < p {
                assert(s[q] == head[q]);
            } else if q == p {
                assert(s.subrange(q, q + 7)[1] == c[1]);
            } else if q < p + 6 {
                assert(s[q] == o[q - p]);
            } else {
                assert(s[q] == body[q - p - 6]);
            }
        }
    }
    assert(s.subrange(e, e + 7) =~= c);
    lemma_first_occurrence_at(s, c, 0, e);
    assert(s.subrange(p + 6, e) =~= body);
}

/// Whether `between_body_tag` can take the body of this page: `</body>`
/// comes after `<body>`, when the page has `<body>`.
pub fn body_end_follows_body(resp_body_text: &str) -> (r: bool)
    ensures
        r == has_body_end(resp_body_text@),
{
    let v = str_to_chars(resp_body_text);
    let open_tag = str_to_chars("<body>");
    let close_tag = str_to_chars("</body>");
    match find_chars(&v, &open_tag) {
        Some(b) => match find_chars(&v, &close_tag) {
            Some(e) => e >= b && e - b >= 6,
            None => false,
        },
        None => true,
    }
}

/// Only the html between `<body>` and `</body>` of a fetched page.
pub fn between_body_tag(resp_body_text: &str) -> (r: String)
    requires
        has_body_end(resp_body_text@),
    ensures
        r@ == between_body_tag_spec(resp_body_text@),
{
    let v = str_to_chars(resp_body_text);
    let open_tag = str_to_chars("<body>");
    let close_tag = str_to_chars("</body>");
    proof {
        reveal_strlit("<body>");
    }
    match find_chars(&v, &open_tag) {
        Some(pos1) => {
            let pos2: usize = match find_chars(&v, &close_tag) {
                Some(p) => p,
                None => 0,
            };
            resp_body_text.substring_char(pos1 + 6, pos2).to_owned()
        },
        None => resp_body_text.to_owned(),
    }
}

/// The local route of a `#` fragment: the fragment itself, or `index` when
/// there is none.
pub fn local_route_from_hash(hash: String) -> (r: String)
    ensures
        hash@.len() == 0 ==> r@ == "index"@,
        hash@.len() != 0 ==> r@ == hash@,
{
    if hash.as_str().is_empty() {
        String::from_str("index")
    } else {
        hash
    }
}

} // verus!
