//! The grammar of the two inline markup tag shapes that body text may
//! contain: a link-shaped tag `<e type="T" href="H" title="L"X/>` and a
//! hashtag tag `<e type="hashtag" hid="I" title="L" />`. Attribute values are
//! nonempty and free of quotes; `X` stands for any run of characters without
//! a slash. Each shape is recognized at a given position, exactly as written.

use vstd::prelude::*;
use vstd::string::StrSliceExecFns;

use crate::text::{find_char, lit_matches_at, matches_at};

verus! {

pub open spec fn link_head() -> Seq<char> {
    "<e type=\""@
}

pub open spec fn href_mid() -> Seq<char> {
    "\" href=\""@
}

pub open spec fn title_mid() -> Seq<char> {
    "\" title=\""@
}

pub open spec fn hashtag_head() -> Seq<char> {
    "<e type=\"hashtag\" hid=\""@
}

pub open spec fn hashtag_tail() -> Seq<char> {
    "\" />"@
}

/// The attribute values of a link-shaped tag, and the index just past it.
pub struct LinkTagMatch {
    pub ty: Seq<char>,
    pub href: Seq<char>,
    pub title: Seq<char>,
    pub end: int,
}

/// The link-shaped tag starting at position `i` of `s`, if any: the literal
/// pieces in order, each attribute value running to the next quote.
pub open spec fn spec_link_match(s: Seq<char>, i: int) -> Option<LinkTagMatch> {
    if !matches_at(s, i, link_head()) {
        None
    } else {
        let t0 = i + link_head().len();
        match find_char(s, t0, '"') {
            None => None,
            Some(q1) => if q1 == t0 || !matches_at(s, q1, href_mid()) {
                None
            } else {
                let h0 = q1 + href_mid().len();
                match find_char(s, h0, '"') {
                    None => None,
                    Some(q2) => if q2 == h0 || !matches_at(s, q2, title_mid()) {
                        None
                    } else {
                        let l0 = q2 + title_mid().len();
                        match find_char(s, l0, '"') {
                            None => None,
                            Some(q3) => if q3 == l0 {
                                None
                            } else {
                                match find_char(s, q3 + 1, '/') {
                                    None => None,
                                    Some(sl) => if i < sl + 2 <= s.len() && s[sl + 1] == '>' {
                                        Some(
                                            LinkTagMatch {
                                                ty: s.subrange(t0, q1),
                                                href: s.subrange(h0, q2),
                                                title: s.subrange(l0, q3),
                                                end: sl + 2,
                                            },
                                        )
                                    } else {
                                        None
                                    },
                                }
                            },
                        }
                    },
                }
            },
        }
    }
}

/// The attribute values of a hashtag tag, and the index just past it.
pub struct HashtagTagMatch {
    pub hid: Seq<char>,
    pub title: Seq<char>,
    pub end: int,
}

/// The hashtag tag starting at position `i` of `s`, if any.
pub open spec fn spec_hashtag_match(s: Seq<char>, i: int) -> Option<HashtagTagMatch> {
    if !matches_at(s, i, hashtag_head()) {
        None
    } else {
        let h0 = i + hashtag_head().len();
        match find_char(s, h0, '"') {
            None => None,
            Some(q1) => if q1 == h0 || !matches_at(s, q1, title_mid()) {
                None
            } else {
                let l0 = q1 + title_mid().len();
                match find_char(s, l0, '"') {
                    None => None,
                    Some(q2) => if q2 == l0 || !matches_at(s, q2, hashtag_tail()) || !(i < q2
                        + hashtag_tail().len()) {
                        None
                    } else {
                        Some(
                            HashtagTagMatch {
                                hid: s.subrange(h0, q1),
                                title: s.subrange(l0, q2),
                                end: q2 + hashtag_tail().len(),
                            },
                        )
                    },
                }
            },
        }
    }
}

/// First index at or after `from` holding `c`, as an executable search.
pub fn find_char_vec(v: &Vec<char>, from: usize, c: char) -> (r: Option<usize>)
    requires
        from <= v@.len(),
    ensures
        match r {
            Some(j) => find_char(v@, from as int, c) == Some(j as int) && from <= j < v@.len()
                && v@[j as int] == c,
            None => find_char(v@, from as int, c) is None,
        },
{
    let n = v.len();
    let mut j: usize = from;
    while j < n
        invariant
            from <= j <= n,
            n == v@.len(),
            find_char(v@, from as int, c) == find_char(v@, j as int, c),
        decreases n - j,
    {
        if v[j] == c {
            proof {
                assert(find_char(v@, j as int, c) == Some(j as int));
            }
            return Some(j);
        }
        j = j + 1;
        proof {
            assert(find_char(v@, j as int - 1, c) == find_char(v@, j as int, c));
        }
    }
    proof {
        assert(find_char(v@, j as int, c) is None);
    }
    None
}

/// Attribute positions of a link-shaped tag found in `v`: each value as the
/// half-open index range holding it, and the index just past the tag.
pub struct LinkHit {
    pub ty_lo: usize,
    pub ty_hi: usize,
    pub href_lo: usize,
    pub href_hi: usize,
    pub title_lo: usize,
    pub title_hi: usize,
    pub end: usize,
}

/// Scans for a link-shaped tag starting exactly at position `i`.
pub fn link_scan(v: &Vec<char>, i: usize) -> (r: Option<LinkHit>)
    requires
        i <= v@.len(),
    ensures
        r is Some <==> spec_link_match(v@, i as int) is Some,
        r matches Some(h) ==> {
            &&& i < h.end <= v@.len()
            &&& h.ty_lo <= h.ty_hi <= v@.len()
            &&& h.href_lo <= h.href_hi <= v@.len()
            &&& h.title_lo <= h.title_hi <= v@.len()
            &&& spec_link_match(v@, i as int) == Some(
                LinkTagMatch {
                    ty: v@.subrange(h.ty_lo as int, h.ty_hi as int),
                    href: v@.subrange(h.href_lo as int, h.href_hi as int),
                    title: v@.subrange(h.title_lo as int, h.title_hi as int),
                    end: h.end as int,
                },
            )
        },
{
    let n = v.len();
    if !lit_matches_at(v, i, "<e type=\"") {
        return None;
    }
    let t0 = i + "<e type=\"".unicode_len();
    let q1 = match find_char_vec(v, t0, '"') {
        None => {
            return None;
        },
        Some(q) => q,
    };
    if q1 == t0 {
        return None;
    }
    if !lit_matches_at(v, q1, "\" href=\"") {
        return None;
    }
    let h0 = q1 + "\" href=\"".unicode_len();
    let q2 = match find_char_vec(v, h0, '"') {
        None => {
            return None;
        },
        Some(q) => q,
    };
    if q2 == h0 {
        return None;
    }
    if !lit_matches_at(v, q2, "\" title=\"") {
        return None;
    }
    let l0 = q2 + "\" title=\"".unicode_len();
    let q3 = match find_char_vec(v, l0, '"') {
        None => {
            return None;
        },
        Some(q) => q,
    };
    if q3 == l0 {
        return None;
    }
    let sl = match find_char_vec(v, q3 + 1, '/') {
        None => {
            return None;
        },
        Some(q) => q,
    };
    if sl + 1 < n && v[sl + 1] == '>' {
        Some(
            LinkHit {
                ty_lo: t0,
                ty_hi: q1,
                href_lo: h0,
                href_hi: q2,
                title_lo: l0,
                title_hi: q3,
                end: sl + 2,
            },
        )
    } else {
        None
    }
}

/// Attribute positions of a hashtag tag found in `v`.
pub struct HashtagHit {
    pub hid_lo: usize,
    pub hid_hi: usize,
    pub title_lo: usize,
    pub title_hi: usize,
    pub end: usize,
}

/// Scans for a hashtag tag starting exactly at position `i`.
pub fn hashtag_scan(v: &Vec<char>, i: usize) -> (r: Option<HashtagHit>)
    requires
        i <= v@.len(),
    ensures
        r is Some <==> spec_hashtag_match(v@, i as int) is Some,
        r matches Some(h) ==> {
            &&& i < h.end <= v@.len()
            &&& h.hid_lo <= h.hid_hi <= v@.len()
            &&& h.title_lo <= h.title_hi <= v@.len()
            &&& spec_hashtag_match(v@, i as int) == Some(
                HashtagTagMatch {
                    hid: v@.subrange(h.hid_lo as int, h.hid_hi as int),
                    title: v@.subrange(h.title_lo as int, h.title_hi as int),
                    end: h.end as int,
                },
            )
        },
{
    let _n = v.len();
    if !lit_matches_at(v, i, "<e type=\"hashtag\" hid=\"") {
        return None;
    }
    let h0 = i + "<e type=\"hashtag\" hid=\"".unicode_len();
    let q1 = match find_char_vec(v, h0, '"') {
        None => {
            return None;
        },
        Some(q) => q,
    };
    if q1 == h0 {
        return None;
    }
    if !lit_matches_at(v, q1, "\" title=\"") {
        return None;
    }
    let l0 = q1 + "\" title=\"".unicode_len();
    let q2 = match find_char_vec(v, l0, '"') {
        None => {
            return None;
        },
        Some(q) => q,
    };
    if q2 == l0 {
        return None;
    }
    if !lit_matches_at(v, q2, "\" />") {
        return None;
    }
    Some(
        HashtagHit {
            hid_lo: h0,
            hid_hi: q1,
            title_lo: l0,
            title_hi: q2,
            end: q2 + "\" />".unicode_len(),
        },
    )
}

} // verus!
