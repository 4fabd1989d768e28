//! Properties of the rewriter and the renderer that hold across whole
//! families of inputs, stated and proved once here.

use vstd::prelude::*;

use crate::decode::percent_decoded;
use crate::rewrite::{spec_hashtag_pass, spec_link_pass, spec_rewrite};
use crate::tags::{
    hashtag_head, hashtag_tail, href_mid, link_head, spec_hashtag_match, spec_link_match,
    title_mid, HashtagTagMatch, LinkTagMatch,
};
use crate::text::{lemma_find_char_exact, matches_at};
use crate::topic::{
    spec_article_line, spec_body, spec_file_lines, spec_heading, spec_image_lines,
    spec_render_topic, FileRef, ImageRef, Topic,
};

verus! {

/// A topic whose type is not `talk` contributes nothing to the output.
pub proof fn lemma_skip_non_talk(
    t: Topic,
    image_urls: Seq<Option<Seq<char>>>,
    file_urls: Seq<Option<Seq<char>>>,
)
    requires
        t.topic_type@ != "talk"@,
    ensures
        spec_render_topic(t, image_urls, file_urls) == Some(Seq::<char>::empty()),
{
}

proof fn lemma_link_pass_no_tags(s: Seq<char>, i: int)
    requires
        0 <= i <= s.len(),
        forall|j: int| spec_link_match(s, j) is None,
    ensures
        spec_link_pass(s, i) == Some(s.subrange(i, s.len() as int)),
    decreases s.len() - i,
{
    if i >= s.len() {
        assert(s.subrange(i, s.len() as int) =~= Seq::<char>::empty());
    } else {
        lemma_link_pass_no_tags(s, i + 1);
        assert(seq![s[i]] + s.subrange(i + 1, s.len() as int) =~= s.subrange(i, s.len() as int));
    }
}

proof fn lemma_hashtag_pass_no_tags(s: Seq<char>, i: int)
    requires
        0 <= i <= s.len(),
        forall|j: int| spec_hashtag_match(s, j) is None,
    ensures
        spec_hashtag_pass(s, i) == Some(s.subrange(i, s.len() as int)),
    decreases s.len() - i,
{
    if i >= s.len() {
        assert(s.subrange(i, s.len() as int) =~= Seq::<char>::empty());
    } else {
        lemma_hashtag_pass_no_tags(s, i + 1);
        assert(seq![s[i]] + s.subrange(i + 1, s.len() as int) =~= s.subrange(i, s.len() as int));
    }
}

/// Rewriting body text in which neither tag shape occurs anywhere returns
/// that text unchanged.
pub proof fn lemma_rewrite_no_tags(s: Seq<char>)
    requires
        forall|j: int| spec_link_match(s, j) is None,
        forall|j: int| spec_hashtag_match(s, j) is None,
    ensures
        spec_rewrite(s) == Some(s),
{
    lemma_link_pass_no_tags(s, 0);
    assert(s.subrange(0, s.len() as int) =~= s);
    lemma_hashtag_pass_no_tags(s, 0);
}

/// Image references none of which resolved to a stored record contribute no
/// output lines at all.
pub proof fn lemma_unresolved_images_silent(
    images: Seq<ImageRef>,
    urls: Seq<Option<Seq<char>>>,
    ix: int,
)
    requires
        forall|j: int| 0 <= j < urls.len() ==> urls[j] is None,
    ensures
        spec_image_lines(images, urls, ix) == Seq::<char>::empty(),
    decreases images.len() - ix,
{
    if 0 <= ix < images.len() && images.len() == urls.len() {
        lemma_unresolved_images_silent(images, urls, ix + 1);
        assert(Seq::<char>::empty() + Seq::<char>::empty() =~= Seq::<char>::empty());
    }
}

/// File references none of which resolved to a stored record contribute no
/// output lines at all.
pub proof fn lemma_unresolved_files_silent(
    files: Seq<FileRef>,
    urls: Seq<Option<Seq<char>>>,
    ix: int,
)
    requires
        forall|j: int| 0 <= j < urls.len() ==> urls[j] is None,
    ensures
        spec_file_lines(files, urls, ix) == Seq::<char>::empty(),
    decreases files.len() - ix,
{
    if 0 <= ix < files.len() && files.len() == urls.len() {
        lemma_unresolved_files_silent(files, urls, ix + 1);
        assert(Seq::<char>::empty() + Seq::<char>::empty() =~= Seq::<char>::empty());
    }
}

/// An article topic without body text and without attachments renders as the
/// heading, the article link line, and the closing newline — no body
/// paragraph.
pub proof fn lemma_article_without_text(
    t: Topic,
    image_urls: Seq<Option<Seq<char>>>,
    file_urls: Seq<Option<Seq<char>>>,
)
    requires
        t.topic_type@ == "talk"@,
        t.talk matches Some(k) && k.text is None && k.article is Some && k.images@.len() == 0
            && k.files@.len() == 0,
    ensures
        (t.talk matches Some(k) ==> (k.article matches Some(a) ==> spec_render_topic(
            t,
            image_urls,
            file_urls,
        ) == Some(spec_heading(t.topic_id, t.create_time@) + spec_article_line(a.article_url)
            + "\n"@))),
{
    let k = t.talk->Some_0;
    let a = k.article->Some_0;
    assert(spec_body(k) == Some(Seq::<char>::empty() + spec_article_line(a.article_url)));
    assert(Seq::<char>::empty() + spec_article_line(a.article_url) =~= spec_article_line(
        a.article_url,
    ));
    assert(spec_heading(t.topic_id, t.create_time@) + spec_article_line(a.article_url)
        + spec_image_lines(k.images@, image_urls, 0) + spec_file_lines(k.files@, file_urls, 0)
        + "\n"@ =~= spec_heading(t.topic_id, t.create_time@) + spec_article_line(a.article_url)
        + "\n"@);
}

/// Text in which `<` does not occur contains neither tag shape; this
/// discharges the tag-freedom premises of the round-trip laws below for any
/// decoded value free of `<`.
pub proof fn lemma_no_angle_no_tags(s: Seq<char>)
    requires
        forall|k: int| 0 <= k < s.len() ==> s[k] != '<',
    ensures
        forall|j: int| spec_link_match(s, j) is None,
        forall|j: int| spec_hashtag_match(s, j) is None,
{
    reveal_strlit("<e type=\"");
    reveal_strlit("<e type=\"hashtag\" hid=\"");
    assert forall|j: int| spec_link_match(s, j) is None by {
        if matches_at(s, j, link_head()) {
            assert(s[j + 0] == link_head()[0]);
        }
    }
    assert forall|j: int| spec_hashtag_match(s, j) is None by {
        if matches_at(s, j, hashtag_head()) {
            assert(s[j + 0] == hashtag_head()[0]);
        }
    }
}

/// The text of a link tag `<e type="TY" href="H" title="L" />`.
pub open spec fn link_tag_text(ty: Seq<char>, h: Seq<char>, l: Seq<char>) -> Seq<char> {
    link_head() + ty + href_mid() + h + title_mid() + l + "\" />"@
}

/// A well-formed link tag is recognized at its start, capturing its three
/// attribute values exactly and spanning the whole text.
pub proof fn lemma_link_tag_parses(ty: Seq<char>, h: Seq<char>, l: Seq<char>)
    requires
        ty.len() > 0,
        h.len() > 0,
        l.len() > 0,
        forall|k: int| 0 <= k < ty.len() ==> ty[k] != '"',
        forall|k: int| 0 <= k < h.len() ==> h[k] != '"',
        forall|k: int| 0 <= k < l.len() ==> l[k] != '"',
    ensures
        spec_link_match(link_tag_text(ty, h, l), 0) == Some(
            LinkTagMatch {
                ty: ty,
                href: h,
                title: l,
                end: link_tag_text(ty, h, l).len() as int,
            },
        ),
{
    reveal_strlit("<e type=\"");
    reveal_strlit("\" href=\"");
    reveal_strlit("\" title=\"");
    reveal_strlit("\" />");
    let s = link_tag_text(ty, h, l);
    let t0 = link_head().len() as int;
    let q1 = t0 + ty.len() as int;
    let h0 = q1 + href_mid().len() as int;
    let q2 = h0 + h.len() as int;
    let l0 = q2 + title_mid().len() as int;
    let q3 = l0 + l.len() as int;
    assert(s.len() == q3 + 4);
    assert(forall|k: int| 0 <= k < t0 ==> s[k] == link_head()[k]);
    assert(forall|k: int| 0 <= k < ty.len() ==> s[t0 + k] == ty[k]);
    assert(forall|k: int| 0 <= k < href_mid().len() ==> s[q1 + k] == href_mid()[k]);
    assert(forall|k: int| 0 <= k < h.len() ==> s[h0 + k] == h[k]);
    assert(forall|k: int| 0 <= k < title_mid().len() ==> s[q2 + k] == title_mid()[k]);
    assert(forall|k: int| 0 <= k < l.len() ==> s[l0 + k] == l[k]);
    assert(forall|k: int| 0 <= k < 4 ==> s[q3 + k] == "\" />"@[k]);
    assert(matches_at(s, 0, link_head()));
    lemma_find_char_exact(s, t0, q1, '"');
    assert(matches_at(s, q1, href_mid()));
    lemma_find_char_exact(s, h0, q2, '"');
    assert(matches_at(s, q2, title_mid()));
    lemma_find_char_exact(s, l0, q3, '"');
    lemma_find_char_exact(s, q3 + 1, q3 + 2, '/');
    assert(s[q3 + 3] == '>');
    assert(s.subrange(t0, q1) =~= ty);
    assert(s.subrange(h0, q2) =~= h);
    assert(s.subrange(l0, q3) =~= l);
    assert(spec_link_match(s, 0) == Some(
        LinkTagMatch { ty: ty, href: h, title: l, end: s.len() as int },
    ));
}

/// A web link tag round-trips into Markdown: rewriting exactly the tag text
/// yields the decoded title and href in link syntax — provided the hashtag
/// tag shape occurs nowhere in that result.
pub proof fn lemma_web_link_round_trip(h: Seq<char>, l: Seq<char>, dh: Seq<char>, dl: Seq<char>)
    requires
        h.len() > 0,
        l.len() > 0,
        forall|k: int| 0 <= k < h.len() ==> h[k] != '"',
        forall|k: int| 0 <= k < l.len() ==> l[k] != '"',
        percent_decoded(h) == Some(dh),
        percent_decoded(l) == Some(dl),
        forall|j: int| spec_hashtag_match("["@ + dl + "]("@ + dh + ")"@, j) is None,
    ensures
        spec_rewrite(link_tag_text("web"@, h, l)) == Some("["@ + dl + "]("@ + dh + ")"@),
{
    reveal_strlit("web");
    assert(forall|k: int| 0 <= k < "web"@.len() ==> "web"@[k] != '"');
    lemma_link_tag_parses("web"@, h, l);
    let s = link_tag_text("web"@, h, l);
    let repl = "["@ + dl + "]("@ + dh + ")"@;
    assert(spec_link_pass(s, s.len() as int) == Some(Seq::<char>::empty()));
    assert(spec_link_pass(s, 0) == Some(repl + Seq::<char>::empty()));
    assert(repl + Seq::<char>::empty() =~= repl);
    lemma_hashtag_pass_no_tags(repl, 0);
    assert(repl.subrange(0, repl.len() as int) =~= repl);
}

/// A link tag whose type is not `web` is left in the output unchanged, and
/// the rewrite still succeeds — provided the hashtag tag shape occurs
/// nowhere in the tag text.
pub proof fn lemma_unknown_type_preserved(
    ty: Seq<char>,
    h: Seq<char>,
    l: Seq<char>,
    dh: Seq<char>,
    dl: Seq<char>,
)
    requires
        ty.len() > 0,
        h.len() > 0,
        l.len() > 0,
        forall|k: int| 0 <= k < ty.len() ==> ty[k] != '"',
        forall|k: int| 0 <= k < h.len() ==> h[k] != '"',
        forall|k: int| 0 <= k < l.len() ==> l[k] != '"',
        ty != "web"@,
        percent_decoded(h) == Some(dh),
        percent_decoded(l) == Some(dl),
        forall|j: int| spec_hashtag_match(link_tag_text(ty, h, l), j) is None,
    ensures
        spec_rewrite(link_tag_text(ty, h, l)) == Some(link_tag_text(ty, h, l)),
{
    lemma_link_tag_parses(ty, h, l);
    let s = link_tag_text(ty, h, l);
    assert(s.subrange(0, s.len() as int) =~= s);
    assert(spec_link_pass(s, s.len() as int) == Some(Seq::<char>::empty()));
    assert(spec_link_pass(s, 0) == Some(s + Seq::<char>::empty()));
    assert(s + Seq::<char>::empty() =~= s);
    lemma_hashtag_pass_no_tags(s, 0);
}

/// The text of a hashtag tag `<e type="hashtag" hid="I" title="L" />`.
pub open spec fn hashtag_tag_text(hid: Seq<char>, l: Seq<char>) -> Seq<char> {
    hashtag_head() + hid + title_mid() + l + "\" />"@
}

/// A well-formed hashtag tag is recognized at its start, capturing its two
/// attribute values exactly and spanning the whole text.
pub proof fn lemma_hashtag_tag_parses(hid: Seq<char>, l: Seq<char>)
    requires
        hid.len() > 0,
        l.len() > 0,
        forall|k: int| 0 <= k < hid.len() ==> hid[k] != '"',
        forall|k: int| 0 <= k < l.len() ==> l[k] != '"',
    ensures
        spec_hashtag_match(hashtag_tag_text(hid, l), 0) == Some(
            HashtagTagMatch {
                hid: hid,
                title: l,
                end: hashtag_tag_text(hid, l).len() as int,
            },
        ),
{
    reveal_strlit("<e type=\"hashtag\" hid=\"");
    reveal_strlit("\" title=\"");
    reveal_strlit("\" />");
    let s = hashtag_tag_text(hid, l);
    let h0 = hashtag_head().len() as int;
    let q1 = h0 + hid.len() as int;
    let l0 = q1 + title_mid().len() as int;
    let q2 = l0 + l.len() as int;
    assert(s.len() == q2 + 4);
    assert(forall|k: int| 0 <= k < h0 ==> s[k] == hashtag_head()[k]);
    assert(forall|k: int| 0 <= k < hid.len() ==> s[h0 + k] == hid[k]);
    assert(forall|k: int| 0 <= k < title_mid().len() ==> s[q1 + k] == title_mid()[k]);
    assert(forall|k: int| 0 <= k < l.len() ==> s[l0 + k] == l[k]);
    assert(forall|k: int| 0 <= k < 4 ==> s[q2 + k] == "\" />"@[k]);
    assert(matches_at(s, 0, hashtag_head()));
    lemma_find_char_exact(s, h0, q1, '"');
    assert(matches_at(s, q1, title_mid()));
    lemma_find_char_exact(s, l0, q2, '"');
    assert(matches_at(s, q2, hashtag_tail()));
    assert(s.subrange(h0, q1) =~= hid);
    assert(s.subrange(l0, q2) =~= l);
    assert(spec_hashtag_match(s, 0) == Some(
        HashtagTagMatch { hid: hid, title: l, end: s.len() as int },
    ));
}

/// A hashtag tag renders as its percent-decoded title alone — no trace of
/// the hid or of the tag markers — provided the link tag shape occurs
/// nowhere in the tag text.
pub proof fn lemma_hashtag_renders_title(hid: Seq<char>, l: Seq<char>, dl: Seq<char>)
    requires
        hid.len() > 0,
        l.len() > 0,
        forall|k: int| 0 <= k < hid.len() ==> hid[k] != '"',
        forall|k: int| 0 <= k < l.len() ==> l[k] != '"',
        percent_decoded(l) == Some(dl),
        forall|j: int| spec_link_match(hashtag_tag_text(hid, l), j) is None,
    ensures
        spec_rewrite(hashtag_tag_text(hid, l)) == Some(dl),
{
    let s = hashtag_tag_text(hid, l);
    lemma_link_pass_no_tags(s, 0);
    assert(s.subrange(0, s.len() as int) =~= s);
    lemma_hashtag_tag_parses(hid, l);
    assert(spec_hashtag_pass(s, s.len() as int) == Some(Seq::<char>::empty()));
    assert(spec_hashtag_pass(s, 0) == Some(dl + Seq::<char>::empty()));
    assert(dl + Seq::<char>::empty() =~= dl);
}

/// In a hashtag tag whose attribute values contain neither `"` nor `<`, the
/// link tag shape occurs nowhere, so the first rewriting pass leaves the tag
/// untouched.
pub proof fn lemma_hashtag_text_no_link_match(hid: Seq<char>, l: Seq<char>)
    requires
        hid.len() > 0,
        l.len() > 0,
        forall|k: int| 0 <= k < hid.len() ==> hid[k] != '"' && hid[k] != '<',
        forall|k: int| 0 <= k < l.len() ==> l[k] != '"' && l[k] != '<',
    ensures
        forall|j: int| spec_link_match(hashtag_tag_text(hid, l), j) is None,
{
    reveal_strlit("<e type=\"");
    reveal_strlit("<e type=\"hashtag\" hid=\"");
    reveal_strlit("\" title=\"");
    reveal_strlit("\" href=\"");
    reveal_strlit("\" />");
    let s = hashtag_tag_text(hid, l);
    let h0 = hashtag_head().len() as int;
    let q1 = h0 + hid.len() as int;
    let l0 = q1 + title_mid().len() as int;
    let q2 = l0 + l.len() as int;
    assert(s.len() == q2 + 4);
    assert(forall|j: int| 0 <= j < h0 ==> #[trigger] s[j] == hashtag_head()[j]);
    assert(forall|j: int| h0 <= j < q1 ==> #[trigger] s[j] == hid[j - h0]);
    assert(forall|j: int| q1 <= j < l0 ==> #[trigger] s[j] == title_mid()[j - q1]);
    assert(forall|j: int| l0 <= j < q2 ==> #[trigger] s[j] == l[j - l0]);
    assert(forall|j: int| q2 <= j < q2 + 4 ==> #[trigger] s[j] == "\" />"@[j - q2]);
    assert(forall|j: int| 1 <= j < s.len() ==> #[trigger] s[j] != '<');
    assert forall|j: int| spec_link_match(s, j) is None by {
        if j == 0 {
            lemma_find_char_exact(s, 9, 16, '"');
            if matches_at(s, 16, href_mid()) {
                assert(s[19int] == href_mid()[3]);
            }
            assert(spec_link_match(s, 0) is None);
        } else if matches_at(s, j, link_head()) {
            assert(s[j + 0] == link_head()[0]);
        }
    }
}

/// A hashtag tag whose attribute values are free of `"` and `<` renders as
/// its percent-decoded title alone, through both passes.
pub proof fn lemma_hashtag_round_trip(hid: Seq<char>, l: Seq<char>, dl: Seq<char>)
    requires
        hid.len() > 0,
        l.len() > 0,
        forall|k: int| 0 <= k < hid.len() ==> hid[k] != '"' && hid[k] != '<',
        forall|k: int| 0 <= k < l.len() ==> l[k] != '"' && l[k] != '<',
        percent_decoded(l) == Some(dl),
    ensures
        spec_rewrite(hashtag_tag_text(hid, l)) == Some(dl),
{
    lemma_hashtag_text_no_link_match(hid, l);
    lemma_hashtag_renders_title(hid, l, dl);
}

/// A web link tag whose decoded attribute values are free of `<` rewrites
/// exactly to the Markdown link, through both passes.
pub proof fn lemma_web_link_round_trip_plain(
    h: Seq<char>,
    l: Seq<char>,
    dh: Seq<char>,
    dl: Seq<char>,
)
    requires
        h.len() > 0,
        l.len() > 0,
        forall|k: int| 0 <= k < h.len() ==> h[k] != '"',
        forall|k: int| 0 <= k < l.len() ==> l[k] != '"',
        percent_decoded(h) == Some(dh),
        percent_decoded(l) == Some(dl),
        forall|k: int| 0 <= k < dh.len() ==> dh[k] != '<',
        forall|k: int| 0 <= k < dl.len() ==> dl[k] != '<',
    ensures
        spec_rewrite(link_tag_text("web"@, h, l)) == Some("["@ + dl + "]("@ + dh + ")"@),
{
    reveal_strlit("[");
    reveal_strlit("](");
    reveal_strlit(")");
    let repl = "["@ + dl + "]("@ + dh + ")"@;
    let a = 1 + dl.len() as int;
    let b = a + 2;
    let c = b + dh.len() as int;
    assert(repl.len() == c + 1);
    assert(repl[0] == '[');
    assert(forall|j: int| 1 <= j < a ==> #[trigger] repl[j] == dl[j - 1]);
    assert(forall|j: int| a <= j < b ==> #[trigger] repl[j] == "]("@[j - a]);
    assert(forall|j: int| b <= j < c ==> #[trigger] repl[j] == dh[j - b]);
    assert(repl[c] == ')');
    assert(forall|j: int| 0 <= j < repl.len() ==> #[trigger] repl[j] != '<');
    lemma_no_angle_no_tags(repl);
    lemma_web_link_round_trip(h, l, dh, dl);
}

/// In a link tag whose attribute values contain neither `"` nor `<`, the
/// hashtag tag shape occurs nowhere, so the second rewriting pass leaves a
/// preserved tag untouched.
pub proof fn lemma_link_text_no_hashtag_match(ty: Seq<char>, h: Seq<char>, l: Seq<char>)
    requires
        ty.len() > 0,
        h.len() > 0,
        l.len() > 0,
        forall|k: int| 0 <= k < ty.len() ==> ty[k] != '"' && ty[k] != '<',
        forall|k: int| 0 <= k < h.len() ==> h[k] != '"' && h[k] != '<',
        forall|k: int| 0 <= k < l.len() ==> l[k] != '"' && l[k] != '<',
    ensures
        forall|j: int| spec_hashtag_match(link_tag_text(ty, h, l), j) is None,
{
    reveal_strlit("<e type=\"");
    reveal_strlit("<e type=\"hashtag\" hid=\"");
    reveal_strlit("\" href=\"");
    reveal_strlit("\" title=\"");
    reveal_strlit("\" />");
    let s = link_tag_text(ty, h, l);
    let t0 = link_head().len() as int;
    let q1 = t0 + ty.len() as int;
    let h0 = q1 + href_mid().len() as int;
    let q2 = h0 + h.len() as int;
    let l0 = q2 + title_mid().len() as int;
    let q3 = l0 + l.len() as int;
    assert(s.len() == q3 + 4);
    assert(forall|j: int| 0 <= j < t0 ==> #[trigger] s[j] == link_head()[j]);
    assert(forall|j: int| t0 <= j < q1 ==> #[trigger] s[j] == ty[j - t0]);
    assert(forall|j: int| q1 <= j < h0 ==> #[trigger] s[j] == href_mid()[j - q1]);
    assert(forall|j: int| h0 <= j < q2 ==> #[trigger] s[j] == h[j - h0]);
    assert(forall|j: int| q2 <= j < l0 ==> #[trigger] s[j] == title_mid()[j - q2]);
    assert(forall|j: int| l0 <= j < q3 ==> #[trigger] s[j] == l[j - l0]);
    assert(forall|j: int| q3 <= j < q3 + 4 ==> #[trigger] s[j] == "\" />"@[j - q3]);
    assert(forall|j: int| 1 <= j < s.len() ==> #[trigger] s[j] != '<');
    assert forall|j: int| spec_hashtag_match(s, j) is None by {
        if j == 0 {
            if matches_at(s, 0, hashtag_head()) {
                if ty.len() > 7 {
                    assert(s[16] == ty[16 - 9]);
                    assert(s[16] == hashtag_head()[16]);
                } else if ty.len() == 7 {
                    assert(s[19] == href_mid()[3]);
                    assert(s[19] == hashtag_head()[19]);
                } else {
                    assert(s[q1] == href_mid()[0]);
                    assert(s[q1] == hashtag_head()[q1]);
                }
            }
        } else if matches_at(s, j, hashtag_head()) {
            assert(s[j + 0] == hashtag_head()[0]);
        }
    }
}

/// A link tag whose type is not `web`, with attribute values free of `"`
/// and `<`, is left in the output unchanged through both passes, and the
/// rewrite still succeeds.
pub proof fn lemma_unknown_type_round_trip(
    ty: Seq<char>,
    h: Seq<char>,
    l: Seq<char>,
    dh: Seq<char>,
    dl: Seq<char>,
)
    requires
        ty.len() > 0,
        h.len() > 0,
        l.len() > 0,
        forall|k: int| 0 <= k < ty.len() ==> ty[k] != '"' && ty[k] != '<',
        forall|k: int| 0 <= k < h.len() ==> h[k] != '"' && h[k] != '<',
        forall|k: int| 0 <= k < l.len() ==> l[k] != '"' && l[k] != '<',
        ty != "web"@,
        percent_decoded(h) == Some(dh),
        percent_decoded(l) == Some(dl),
    ensures
        spec_rewrite(link_tag_text(ty, h, l)) == Some(link_tag_text(ty, h, l)),
{
    lemma_link_text_no_hashtag_match(ty, h, l);
    lemma_unknown_type_preserved(ty, h, l, dh, dl);
}

/// With no article url at all, the article line is exactly `[阅读更多]()`
/// followed by a blank line.
pub proof fn lemma_missing_article_url()
    ensures
        spec_article_line(None) == "[阅读更多]()\n\n"@,
{
    reveal_strlit("[阅读更多](");
    reveal_strlit(")\n\n");
    reveal_strlit("[阅读更多]()\n\n");
    assert(spec_article_line(None) =~= "[阅读更多]()\n\n"@);
}

} // verus!
