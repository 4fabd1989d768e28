//! The topic data model and the renderer that produces one Markdown block
//! per topic. A topic's attachments are resolved against the side
//! collections by the caller; the renderer receives, for each embedded image
//! and file in order, either the stored resource path or nothing.

use vstd::prelude::*;

use crate::numfmt::{push_i64_dec, spec_idec};
use crate::rewrite::{rewrite_chars, spec_rewrite};
use crate::text::{chars_of, push_chars, push_str_chars, string_from_chars};
use vstd::string::StringExecFns;

verus! {

/// An image embedded in a topic; the id is a lookup key into the group's
/// image collection.
pub struct ImageRef {
    pub image_id: i64,
}

/// A file embedded in a topic; the id is a lookup key into the group's file
/// collection, and the name appears in the output.
pub struct FileRef {
    pub file_id: i64,
    pub name: String,
}

/// The linked external article of an article topic.
pub struct Article {
    pub article_url: Option<String>,
}

/// The nested talk payload of a topic.
pub struct Talk {
    pub text: Option<String>,
    pub article: Option<Article>,
    pub images: Vec<ImageRef>,
    pub files: Vec<FileRef>,
}

/// One feed entry as read from the topic collection. `talk` is present on
/// every well-formed record of type `talk`.
pub struct Topic {
    pub topic_id: i64,
    pub create_time: String,
    pub topic_type: String,
    pub talk: Option<Talk>,
}

/// The heading line of a rendered topic, followed by a blank line.
pub open spec fn spec_heading(topic_id: i64, create_time: Seq<char>) -> Seq<char> {
    "## 话题 ID: "@ + spec_idec(topic_id as int) + " - "@ + create_time + "\n\n"@
}

/// The article link line: the url, if any, inside `[阅读更多](...)`, followed
/// by a blank line.
pub open spec fn spec_article_line(article_url: Option<String>) -> Seq<char> {
    "[阅读更多]("@ + (match article_url {
        Some(u) => u@,
        None => Seq::<char>::empty(),
    }) + ")\n\n"@
}

/// `o` with `s` appended to its content; failure is kept as failure.
pub open spec fn opt_append(o: Option<Seq<char>>, s: Seq<char>) -> Option<Seq<char>> {
    match o {
        Some(r) => Some(r + s),
        None => None,
    }
}

/// The body part of a topic block. With an article, the rewritten text (if
/// any) is followed by the article link line; without one, the rewritten
/// text (if any) is followed by a space and a blank line. `None` reports a
/// percent-decoding failure.
pub open spec fn spec_body(talk: Talk) -> Option<Seq<char>> {
    match talk.article {
        Some(a) => {
            let text_part = match talk.text {
                Some(t) => spec_rewrite(t@),
                None => Some(Seq::<char>::empty()),
            };
            opt_append(text_part, spec_article_line(a.article_url))
        },
        None => match talk.text {
            Some(t) => opt_append(spec_rewrite(t@), " \n\n"@),
            None => Some(Seq::<char>::empty()),
        },
    }
}

/// The image lines of a topic block from index `ix` on: one line per image
/// whose lookup found a stored record, in listed order; unresolved images
/// contribute nothing.
pub open spec fn spec_image_lines(
    images: Seq<ImageRef>,
    urls: Seq<Option<Seq<char>>>,
    ix: int,
) -> Seq<char>
    decreases images.len() - ix,
{
    if ix < 0 || ix >= images.len() || images.len() != urls.len() {
        Seq::empty()
    } else {
        (match urls[ix] {
            Some(u) => "!["@ + spec_idec(images[ix].image_id as int) + "]("@ + u + ")\n\n"@,
            None => Seq::<char>::empty(),
        }) + spec_image_lines(images, urls, ix + 1)
    }
}

/// The file lines of a topic block from index `ix` on, as the image lines
/// but with the file's display name in place of an id.
pub open spec fn spec_file_lines(
    files: Seq<FileRef>,
    urls: Seq<Option<Seq<char>>>,
    ix: int,
) -> Seq<char>
    decreases files.len() - ix,
{
    if ix < 0 || ix >= files.len() || files.len() != urls.len() {
        Seq::empty()
    } else {
        (match urls[ix] {
            Some(u) => "!["@ + files[ix].name@ + "]("@ + u + ")\n\n"@,
            None => Seq::<char>::empty(),
        }) + spec_file_lines(files, urls, ix + 1)
    }
}

/// The whole Markdown block of one topic: heading, body, image lines, file
/// lines, and a closing newline. A topic whose type is not `talk`
/// contributes nothing at all. `None` reports a fatal condition: a
/// percent-decoding failure, or a `talk` record without its payload.
pub open spec fn spec_render_topic(
    t: Topic,
    image_urls: Seq<Option<Seq<char>>>,
    file_urls: Seq<Option<Seq<char>>>,
) -> Option<Seq<char>> {
    if t.topic_type@ != "talk"@ {
        Some(Seq::<char>::empty())
    } else {
        match t.talk {
            Some(k) => match spec_body(k) {
                Some(b) => Some(
                    spec_heading(t.topic_id, t.create_time@) + b + spec_image_lines(
                        k.images@,
                        image_urls,
                        0,
                    ) + spec_file_lines(k.files@, file_urls, 0) + "\n"@,
                ),
                None => None,
            },
            None => None,
        }
    }
}

/// Renders the body part of one talk payload.
fn render_body(k: &Talk) -> (r: Option<Vec<char>>)
    ensures
        r is Some <==> spec_body(*k) is Some,
        r matches Some(b) ==> spec_body(*k) == Some(b@),
{
    let mut out: Vec<char> = Vec::new();
    match &k.article {
        Some(a) => {
            match &k.text {
                Some(txt) => {
                    let tv = chars_of(txt.as_str());
                    match rewrite_chars(&tv) {
                        Some(rw) => {
                            push_chars(&mut out, &rw);
                        },
                        None => {
                            return None;
                        },
                    }
                },
                None => {},
            }
            let ghost tpart = out@;
            push_str_chars(&mut out, "[阅读更多](");
            match &a.article_url {
                Some(u) => {
                    push_str_chars(&mut out, u.as_str());
                },
                None => {},
            }
            push_str_chars(&mut out, ")\n\n");
            proof {
                assert(out@ =~= tpart + spec_article_line(a.article_url));
                match &k.text {
                    Some(t) => {
                        assert(tpart =~= spec_rewrite(t@)->Some_0);
                    },
                    None => {
                        assert(tpart =~= Seq::<char>::empty());
                    },
                }
            }
            Some(out)
        },
        None => {
            match &k.text {
                Some(txt) => {
                    let tv = chars_of(txt.as_str());
                    match rewrite_chars(&tv) {
                        Some(rw) => {
                            push_chars(&mut out, &rw);
                            push_str_chars(&mut out, " \n\n");
                            proof {
                                assert(out@ =~= rw@ + " \n\n"@);
                            }
                        },
                        None => {
                            return None;
                        },
                    }
                },
                None => {},
            }
            Some(out)
        },
    }
}

/// Appends one image line per resolved image, in listed order.
fn push_image_lines(out: &mut Vec<char>, images: &Vec<ImageRef>, urls: &Vec<Option<String>>)
    requires
        images@.len() == urls@.len(),
    ensures
        final(out)@ == old(out)@ + spec_image_lines(images@, urls.deep_view(), 0),
{
    let n = images.len();
    let mut ix: usize = 0;
    while ix < n
        invariant
            ix <= n,
            n == images@.len(),
            images@.len() == urls@.len(),
            out@ + spec_image_lines(images@, urls.deep_view(), ix as int) == old(out)@
                + spec_image_lines(images@, urls.deep_view(), 0),
        decreases n - ix,
    {
        let ghost prev = out@;
        let ghost rest0 = spec_image_lines(images@, urls.deep_view(), ix as int);
        proof {
            assert(urls.deep_view()[ix as int] == urls@[ix as int].deep_view());
        }
        match &urls[ix] {
            Some(u) => {
                push_str_chars(out, "![");
                push_i64_dec(out, images[ix].image_id);
                push_str_chars(out, "](");
                push_str_chars(out, u.as_str());
                push_str_chars(out, ")\n\n");
                proof {
                    assert(out@ =~= prev + ("!["@ + spec_idec(images@[ix as int].image_id as int)
                        + "]("@ + u@ + ")\n\n"@));
                }
            },
            None => {
                proof {
                    assert(out@ =~= prev + Seq::<char>::empty());
                }
            },
        }
        ix = ix + 1;
        proof {
            assert(out@ + spec_image_lines(images@, urls.deep_view(), ix as int) =~= prev + rest0);
        }
    }
    proof {
        assert(out@ + spec_image_lines(images@, urls.deep_view(), n as int) =~= out@);
    }
}

/// Appends one file line per resolved file, in listed order.
fn push_file_lines(out: &mut Vec<char>, files: &Vec<FileRef>, urls: &Vec<Option<String>>)
    requires
        files@.len() == urls@.len(),
    ensures
        final(out)@ == old(out)@ + spec_file_lines(files@, urls.deep_view(), 0),
{
    let n = files.len();
    let mut ix: usize = 0;
    while ix < n
        invariant
            ix <= n,
            n == files@.len(),
            files@.len() == urls@.len(),
            out@ + spec_file_lines(files@, urls.deep_view(), ix as int) == old(out)@
                + spec_file_lines(files@, urls.deep_view(), 0),
        decreases n - ix,
    {
        let ghost prev = out@;
        let ghost rest0 = spec_file_lines(files@, urls.deep_view(), ix as int);
        proof {
            assert(urls.deep_view()[ix as int] == urls@[ix as int].deep_view());
        }
        match &urls[ix] {
            Some(u) => {
                push_str_chars(out, "![");
                push_str_chars(out, files[ix].name.as_str());
                push_str_chars(out, "](");
                push_str_chars(out, u.as_str());
                push_str_chars(out, ")\n\n");
                proof {
                    assert(out@ =~= prev + ("!["@ + files@[ix as int].name@ + "]("@ + u@
                        + ")\n\n"@));
                }
            },
            None => {
                proof {
                    assert(out@ =~= prev + Seq::<char>::empty());
                }
            },
        }
        ix = ix + 1;
        proof {
            assert(out@ + spec_file_lines(files@, urls.deep_view(), ix as int) =~= prev + rest0);
        }
    }
    proof {
        assert(out@ + spec_file_lines(files@, urls.deep_view(), n as int) =~= out@);
    }
}

/// Renders one topic's full Markdown block. `image_urls` and `file_urls`
/// hold, for each embedded image and file in listed order, the resolved
/// resource path or `None` where the side collection had no record. `None`
/// reports a fatal condition, which a caller treats as aborting the export.
pub fn render_topic(
    t: &Topic,
    image_urls: &Vec<Option<String>>,
    file_urls: &Vec<Option<String>>,
) -> (r: Option<String>)
    requires
        t.topic_type@ == "talk"@ ==> (t.talk matches Some(k) ==> image_urls@.len()
            == k.images@.len() && file_urls@.len() == k.files@.len()),
    ensures
        r is Some <==> spec_render_topic(*t, image_urls.deep_view(), file_urls.deep_view())
            is Some,
        r matches Some(out) ==> spec_render_topic(
            *t,
            image_urls.deep_view(),
            file_urls.deep_view(),
        ) == Some(out@),
{
    let talk_lit = String::from_str("talk");
    if !(t.topic_type == talk_lit) {
        return Some(String::new());
    }
    match &t.talk {
        None => None,
        Some(k) => {
            let body = match render_body(k) {
                Some(b) => b,
                None => {
                    return None;
                },
            };
            let mut out: Vec<char> = Vec::new();
            push_str_chars(&mut out, "## 话题 ID: ");
            push_i64_dec(&mut out, t.topic_id);
            push_str_chars(&mut out, " - ");
            push_str_chars(&mut out, t.create_time.as_str());
            push_str_chars(&mut out, "\n\n");
            let ghost hpart = out@;
            proof {
                assert(hpart =~= spec_heading(t.topic_id, t.create_time@));
            }
            push_chars(&mut out, &body);
            push_image_lines(&mut out, &k.images, image_urls);
            push_file_lines(&mut out, &k.files, file_urls);
            push_str_chars(&mut out, "\n");
            proof {
                assert(out@ =~= spec_heading(t.topic_id, t.create_time@) + body@
                    + spec_image_lines(k.images@, image_urls.deep_view(), 0) + spec_file_lines(
                    k.files@,
                    file_urls.deep_view(),
                    0,
                ) + "\n"@);
            }
            Some(string_from_chars(&out))
        },
    }
}

} // verus!
