//! The inline markup rewriter. Two passes run in order over body text: the
//! first replaces each link-shaped tag, the second replaces each hashtag tag
//! in the result of the first. Text between tags is kept as it is, and a tag
//! whose attributes fail to percent-decode makes the whole rewrite fail.

use vstd::prelude::*;

use crate::decode::{percent_decode_chars, percent_decoded};
use crate::tags::{hashtag_scan, link_scan, spec_hashtag_match, spec_link_match};
use crate::text::{chars_of, copy_range, push_chars, push_str_chars, range_eq_lit, string_from_chars};

verus! {

/// `o` with `p` prepended to its content; failure is kept as failure.
pub open spec fn opt_prepend(p: Seq<char>, o: Option<Seq<char>>) -> Option<Seq<char>> {
    match o {
        Some(r) => Some(p + r),
        None => None,
    }
}

proof fn lemma_opt_prepend_empty(o: Option<Seq<char>>)
    ensures
        opt_prepend(Seq::<char>::empty(), o) == o,
{
    match o {
        Some(r) => {
            assert(Seq::<char>::empty() + r =~= r);
        },
        None => {},
    }
}

proof fn lemma_opt_prepend_assoc(a: Seq<char>, b: Seq<char>, o: Option<Seq<char>>)
    ensures
        opt_prepend(a, opt_prepend(b, o)) == opt_prepend(a + b, o),
{
    match o {
        Some(r) => {
            assert((a + b) + r =~= a + (b + r));
        },
        None => {},
    }
}

/// What a matched link-shaped tag becomes: a Markdown link when its type is
/// `web`, the original tag text for any other type.
pub open spec fn link_replacement(
    ty: Seq<char>,
    dhref: Seq<char>,
    dtitle: Seq<char>,
    orig: Seq<char>,
) -> Seq<char> {
    if ty == "web"@ {
        "["@ + dtitle + "]("@ + dhref + ")"@
    } else {
        orig
    }
}

/// The first pass over `s` from position `i` on: each link-shaped tag is
/// replaced, with its `href` and `title` percent-decoded, and all other text
/// is kept. `None` means an attribute failed to decode.
pub open spec fn spec_link_pass(s: Seq<char>, i: int) -> Option<Seq<char>>
    decreases s.len() - i,
{
    if i < 0 || i >= s.len() {
        Some(Seq::empty())
    } else {
        match spec_link_match(s, i) {
            Some(m) => match (percent_decoded(m.href), percent_decoded(m.title)) {
                (Some(dh), Some(dt)) => opt_prepend(
                    link_replacement(m.ty, dh, dt, s.subrange(i, m.end)),
                    spec_link_pass(s, m.end),
                ),
                _ => None,
            },
            None => opt_prepend(seq![s[i]], spec_link_pass(s, i + 1)),
        }
    }
}

/// The second pass over `s` from position `i` on: each hashtag tag is
/// replaced by its percent-decoded `title` alone, and all other text is
/// kept. `None` means the `title` failed to decode.
pub open spec fn spec_hashtag_pass(s: Seq<char>, i: int) -> Option<Seq<char>>
    decreases s.len() - i,
{
    if i < 0 || i >= s.len() {
        Some(Seq::empty())
    } else {
        match spec_hashtag_match(s, i) {
            Some(m) => match percent_decoded(m.title) {
                Some(dt) => opt_prepend(dt, spec_hashtag_pass(s, m.end)),
                None => None,
            },
            None => opt_prepend(seq![s[i]], spec_hashtag_pass(s, i + 1)),
        }
    }
}

/// Both passes in order: link-shaped tags first, hashtag tags over the
/// result of that. `None` means percent-decoding failed somewhere.
pub open spec fn spec_rewrite(s: Seq<char>) -> Option<Seq<char>> {
    match spec_link_pass(s, 0) {
        Some(t) => spec_hashtag_pass(t, 0),
        None => None,
    }
}

/// The first pass, executably: scans `v` left to right, replacing each
/// link-shaped tag and copying everything else.
pub fn link_pass_chars(v: &Vec<char>) -> (r: Option<Vec<char>>)
    ensures
        r is Some <==> spec_link_pass(v@, 0) is Some,
        r matches Some(out) ==> spec_link_pass(v@, 0) == Some(out@),
{
    let n = v.len();
    let mut out: Vec<char> = Vec::new();
    let mut i: usize = 0;
    proof {
        lemma_opt_prepend_empty(spec_link_pass(v@, 0));
    }
    while i < n
        invariant
            i <= n,
            n == v@.len(),
            spec_link_pass(v@, 0) == opt_prepend(out@, spec_link_pass(v@, i as int)),
        decreases n - i,
    {
        let ghost prev = out@;
        let ghost i0 = i as int;
        match link_scan(v, i) {
            Some(h) => {
                let href = copy_range(v, h.href_lo, h.href_hi);
                let title = copy_range(v, h.title_lo, h.title_hi);
                let dh = percent_decode_chars(&href);
                let dt = percent_decode_chars(&title);
                match (dh, dt) {
                    (Some(dhv), Some(dtv)) => {
                        let ghost repl = link_replacement(
                            v@.subrange(h.ty_lo as int, h.ty_hi as int),
                            dhv@,
                            dtv@,
                            v@.subrange(i0, h.end as int),
                        );
                        if range_eq_lit(v, h.ty_lo, h.ty_hi, "web") {
                            push_str_chars(&mut out, "[");
                            push_chars(&mut out, &dtv);
                            push_str_chars(&mut out, "](");
                            push_chars(&mut out, &dhv);
                            push_str_chars(&mut out, ")");
                            proof {
                                assert(out@ =~= prev + repl);
                            }
                        } else {
                            let orig = copy_range(v, i, h.end);
                            push_chars(&mut out, &orig);
                        }
                        i = h.end;
                        proof {
                            assert(spec_link_pass(v@, i0) == opt_prepend(
                                repl,
                                spec_link_pass(v@, i as int),
                            ));
                            lemma_opt_prepend_assoc(prev, repl, spec_link_pass(v@, i as int));
                        }
                    },
                    _ => {
                        proof {
                            assert(spec_link_pass(v@, i0) is None);
                        }
                        return None;
                    },
                }
            },
            None => {
                out.push(v[i]);
                i = i + 1;
                proof {
                    assert(out@ =~= prev + seq![v@[i0]]);
                    lemma_opt_prepend_assoc(prev, seq![v@[i0]], spec_link_pass(v@, i as int));
                }
            },
        }
    }
    proof {
        assert(spec_link_pass(v@, i as int) == Some(Seq::<char>::empty()));
        assert(out@ + Seq::<char>::empty() =~= out@);
    }
    Some(out)
}

/// The second pass, executably: scans `v` left to right, replacing each
/// hashtag tag by its decoded `title` and copying everything else.
pub fn hashtag_pass_chars(v: &Vec<char>) -> (r: Option<Vec<char>>)
    ensures
        r is Some <==> spec_hashtag_pass(v@, 0) is Some,
        r matches Some(out) ==> spec_hashtag_pass(v@, 0) == Some(out@),
{
    let n = v.len();
    let mut out: Vec<char> = Vec::new();
    let mut i: usize = 0;
    proof {
        lemma_opt_prepend_empty(spec_hashtag_pass(v@, 0));
    }
    while i < n
        invariant
            i <= n,
            n == v@.len(),
            spec_hashtag_pass(v@, 0) == opt_prepend(out@, spec_hashtag_pass(v@, i as int)),
        decreases n - i,
    {
        let ghost prev = out@;
        let ghost i0 = i as int;
        match hashtag_scan(v, i) {
            Some(h) => {
                let title = copy_range(v, h.title_lo, h.title_hi);
                match percent_decode_chars(&title) {
                    Some(dtv) => {
                        push_chars(&mut out, &dtv);
                        i = h.end;
                        proof {
                            assert(spec_hashtag_pass(v@, i0) == opt_prepend(
                                dtv@,
                                spec_hashtag_pass(v@, i as int),
                            ));
                            lemma_opt_prepend_assoc(prev, dtv@, spec_hashtag_pass(v@, i as int));
                        }
                    },
                    None => {
                        proof {
                            assert(spec_hashtag_pass(v@, i0) is None);
                        }
                        return None;
                    },
                }
            },
            None => {
                out.push(v[i]);
                i = i + 1;
                proof {
                    assert(out@ =~= prev + seq![v@[i0]]);
                    lemma_opt_prepend_assoc(prev, seq![v@[i0]], spec_hashtag_pass(v@, i as int));
                }
            },
        }
    }
    proof {
        assert(spec_hashtag_pass(v@, i as int) == Some(Seq::<char>::empty()));
        assert(out@ + Seq::<char>::empty() =~= out@);
    }
    Some(out)
}

/// Both passes over a character sequence.
pub fn rewrite_chars(v: &Vec<char>) -> (r: Option<Vec<char>>)
    ensures
        r is Some <==> spec_rewrite(v@) is Some,
        r matches Some(out) ==> spec_rewrite(v@) == Some(out@),
{
    match link_pass_chars(v) {
        None => None,
        Some(mid) => hashtag_pass_chars(&mid),
    }
}

/// Rewrites one body string: link-shaped tags become Markdown links or stay
/// as they are, hashtag tags become their decoded `title`. `None` reports a
/// percent-decoding failure, which a caller treats as fatal.
pub fn rewrite_content(s: &str) -> (r: Option<String>)
    ensures
        r is Some <==> spec_rewrite(s@) is Some,
        r matches Some(t) ==> spec_rewrite(s@) == Some(t@),
{
    let v = chars_of(s);
    match rewrite_chars(&v) {
        None => None,
        Some(out) => Some(string_from_chars(&out)),
    }
}

} // verus!
