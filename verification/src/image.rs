//! Image references and image ids.
use vstd::prelude::*;
use vstd::utf8;

use crate::text::{characters, same};

verus! {

/// The repository and the tag that an image reference names.
///
/// The tag is what follows the last colon, unless a slash follows that colon:
/// then the colon belongs to a registry's port. Without a tag it is `latest`.
pub open spec fn image_ref(image: Seq<char>) -> (Seq<char>, Seq<char>) {
    match image.index_of_last(':') {
        Some(colon) => if image.skip(colon + 1).contains('/') {
            (image, "latest"@)
        } else {
            (image.take(colon), image.skip(colon + 1))
        },
        None => (image, "latest"@),
    }
}

/// `id` without the name of its hash algorithm.
pub open spec fn bare_id(id: Seq<char>) -> Seq<char> {
    if "sha256:"@.is_prefix_of(id) {
        id.skip("sha256:"@.len() as int)
    } else {
        id
    }
}

/// How many bytes of `id` its short form keeps.
pub open spec fn short_len(id: Seq<char>) -> int {
    let len = utf8::encode_utf8(bare_id(id)).len() as int;
    if len < 12 {
        len
    } else {
        12
    }
}

/// The first twelve bytes of `id` behind the name of its hash algorithm.
pub open spec fn short_form(id: Seq<char>) -> Seq<char> {
    utf8::decode_utf8(utf8::encode_utf8(bare_id(id)).take(short_len(id)))
}

/// Whether the short form of `id` ends between two characters.
pub open spec fn has_short_form(id: Seq<char>) -> bool {
    utf8::is_char_boundary(utf8::encode_utf8(bare_id(id)), short_len(id))
}

/// Splits `registry/name:tag` into `(registry/name, tag)`.
/// Falls back to `"latest"` when no tag is present.
pub fn parse_image_ref(image: &str) -> (r: (&str, &str))
    ensures
        (r.0@, r.1@) == image_ref(image@),
{
    let chars = characters(image);
    let mut i: usize = chars.len();
    let mut slash = false;
    proof {
        image@.index_of_last_ensures(':');
    }
    while i > 0
        invariant
            i <= chars.len(),
            chars@ == image@,
            forall|k: int| i <= k < image@.len() ==> image@[k] != ':',
            slash == image@.skip(i as int).contains('/'),
            match image@.index_of_last(':') {
                Some(index) => {
                    &&& 0 <= index < image@.len()
                    &&& image@[index] == ':'
                    &&& forall|k: int| index < k < image@.len() ==> image@[k] != ':'
                },
                None => !image@.contains(':'),
            },
        decreases i,
    {
        i = i - 1;
        if chars[i] == ':' {
            assert(image@.contains(':'));
            if !slash {
                return (image.substring_char(0, i), image.substring_char(i + 1, chars.len()));
            } else {
                return (image, "latest");
            }
        }
        proof {
            let rest = image@.skip(i as int);
            let tail = image@.skip(i + 1);
            assert(rest.drop_first() == tail);
            if rest.contains('/') && rest[0] != '/' {
                let k = choose|k: int| 0 <= k < rest.len() && rest[k] == '/';
                assert(tail[k - 1] == '/');
            }
            if tail.contains('/') {
                let k = choose|k: int| 0 <= k < tail.len() && tail[k] == '/';
                assert(rest[k + 1] == '/');
            }
            assert(rest[0] == '/' ==> rest.contains('/'));
        }
        if chars[i] == '/' {
            slash = true;
        }
    }
    (image, "latest")
}

/// Cuts off the name of the hash algorithm.
fn strip_algorithm(id: &str) -> (r: &str)
    ensures
        r@ == bare_id(id@),
{
    proof {
        reveal_strlit("sha256:");
    }
    let len = id.unicode_len();
    let mut s = id;
    if len >= 7 {
        let head = id.substring_char(0, 7);
        if same(head, "sha256:") {
            s = id.substring_char(7, len);
            assert("sha256:"@.is_prefix_of(id@));
        } else {
            proof {
                if "sha256:"@.is_prefix_of(id@) {
                    assert(head@ == "sha256:"@);
                }
            }
        }
    }
    s
}

/// Whether the short form of an id ends between two characters.
pub fn can_shorten(id: &str) -> (r: bool)
    ensures
        r == has_short_form(id@),
{
    let s = strip_algorithm(id);
    let bytes = s.as_bytes().len();
    s.is_char_boundary(
        if bytes < 12 {
            bytes
        } else {
            12
        },
    )
}

/// The start of an image or container id that identifies it to a human.
pub fn short_sha(id: &str) -> (r: &str)
    requires
        has_short_form(id@),
    ensures
        r@ == short_form(id@),
{
    let s = strip_algorithm(id);
    let bytes = s.as_bytes().len();
    let cut: usize = if bytes < 12 {
        bytes
    } else {
        12
    };
    let (short, _) = s.split_at(cut);
    proof {
        utf8::encode_utf8_decode_utf8(short@);
    }
    short
}

/// The two halves of a reference are its own text: the tag holds neither a
/// colon nor a slash, and joined by a colon the halves are the reference, unless
/// the reference has no tag and the tag is `latest`.
pub proof fn law_image_ref_is_the_reference(image: Seq<char>)
    ensures
        ({
            let (name, tag) = image_ref(image);
            &&& !tag.contains(':')
            &&& !tag.contains('/')
            &&& image == name + seq![':'] + tag || (image == name && tag == "latest"@)
        }),
{
    reveal_strlit("latest");
    image.index_of_last_ensures(':');
    let (name, tag) = image_ref(image);
    if let Some(colon) = image.index_of_last(':') {
        if !image.skip(colon + 1).contains('/') {
            assert(image == name + seq![':'] + tag);
            assert forall|k: int| 0 <= k < tag.len() implies tag[k] != ':' by {
                assert(tag[k] == image[colon + 1 + k]);
            }
        }
    }
}

/// A tag that holds neither a colon nor a slash is found behind any repository,
/// a registry with a port included.
pub proof fn law_image_ref_finds_the_tag(name: Seq<char>, tag: Seq<char>)
    requires
        !tag.contains(':'),
        !tag.contains('/'),
    ensures
        image_ref(name + seq![':'] + tag) == (name, tag),
{
    let image = name + seq![':'] + tag;
    image.index_of_last_ensures(':');
    assert(image[name.len() as int] == ':');
    let colon = image.index_of_last(':').unwrap();
    if colon > name.len() {
        assert(tag[colon - name.len() - 1] == ':');
    }
    assert(image.take(colon) == name);
    assert(image.skip(colon + 1) == tag);
}

/// A registry's port is no tag: a path without a colon that follows it leaves
/// the whole reference as the repository.
pub proof fn law_image_ref_keeps_the_port(registry: Seq<char>, path: Seq<char>)
    requires
        path.contains('/'),
        !path.contains(':'),
    ensures
        image_ref(registry + seq![':'] + path) == (registry + seq![':'] + path, "latest"@),
{
    let image = registry + seq![':'] + path;
    image.index_of_last_ensures(':');
    assert(image[registry.len() as int] == ':');
    let colon = image.index_of_last(':').unwrap();
    if colon > registry.len() {
        assert(path[colon - registry.len() - 1] == ':');
    }
    assert(image.skip(colon + 1) == path);
}

/// The hash algorithm's name makes no difference to the short form.
pub proof fn law_short_form_ignores_the_algorithm(id: Seq<char>)
    requires
        !"sha256:"@.is_prefix_of(id),
    ensures
        short_form("sha256:"@ + id) == short_form(id),
        has_short_form("sha256:"@ + id) == has_short_form(id),
{
    assert("sha256:"@.is_prefix_of("sha256:"@ + id));
    assert(("sha256:"@ + id).skip("sha256:"@.len() as int) == id);
}

/// The short form is a beginning of the id, of at most twelve bytes.
pub proof fn law_short_form_is_a_beginning(id: Seq<char>)
    requires
        has_short_form(id),
    ensures
        short_form(id).is_prefix_of(bare_id(id)),
        utf8::encode_utf8(short_form(id)).len() == short_len(id) <= 12,
{
    let bytes = utf8::encode_utf8(bare_id(id));
    utf8::encode_utf8_valid_utf8(bare_id(id));
    utf8::encode_utf8_decode_utf8(bare_id(id));
    utf8::valid_utf8_split(bytes, short_len(id));
    utf8::decode_utf8_split(bytes, short_len(id));
    assert(bytes.take(short_len(id)) == bytes.subrange(0, short_len(id)));
    utf8::decode_utf8_encode_utf8(bytes.take(short_len(id)));
}

/// Every id in ASCII has a short form, its first twelve characters.
pub proof fn law_short_form_of_ascii(id: Seq<char>)
    requires
        utf8::is_ascii_chars(id),
    ensures
        has_short_form(id),
        short_form(id) == bare_id(id).take(
            if bare_id(id).len() < 12 {
                bare_id(id).len() as int
            } else {
                12
            },
        ),
{
    let bare = bare_id(id);
    let n = short_len(id);
    assert(utf8::is_ascii_chars(bare));
    utf8::is_ascii_chars_encode_utf8(bare);
    let bytes = utf8::encode_utf8(bare);
    utf8::encode_utf8_valid_utf8(bare);
    let head = bare.take(n);
    assert(utf8::is_ascii_chars(head));
    utf8::is_ascii_chars_encode_utf8(head);
    assert(utf8::encode_utf8(head) == bytes.take(n));
    utf8::encode_utf8_decode_utf8(head);
    if n < bytes.len() {
        utf8::is_char_boundary_iff_not_is_continuation_byte(bytes, n);
    } else {
        utf8::is_char_boundary_start_end_of_seq(bytes);
    }
}

/// The name of the hash algorithm is cut off where it stands in front, and nothing else.
pub proof fn law_the_algorithm_is_cut_off(rest: Seq<char>, id: Seq<char>)
    ensures
        bare_id("sha256:"@ + rest) == rest,
        (forall|r: Seq<char>| id != #[trigger] ("sha256:"@ + r)) ==> bare_id(id) == id,
{
    let full = "sha256:"@ + rest;
    assert("sha256:"@.is_prefix_of(full));
    assert(full.skip("sha256:"@.len() as int) == rest);
    if "sha256:"@.is_prefix_of(id) {
        assert(id == "sha256:"@ + id.skip("sha256:"@.len() as int));
    }
}

/// The bytes of two strings after each other, with the boundary between them.
proof fn lemma_encode_joined(head: Seq<char>, tail: Seq<char>)
    ensures
        utf8::encode_utf8(head + tail) == utf8::encode_utf8(head) + utf8::encode_utf8(tail),
        utf8::is_char_boundary(
            utf8::encode_utf8(head + tail),
            utf8::encode_utf8(head).len() as int,
        ),
    decreases head.len(),
{
    let all = head + tail;
    let bytes = utf8::encode_utf8(all);
    utf8::encode_utf8_valid_utf8(all);
    if head.len() == 0 {
        assert(all == tail);
    } else {
        assert(all.drop_first() == head.drop_first() + tail);
        lemma_encode_joined(head.drop_first(), tail);
        utf8::encode_utf8_first_scalar(all);
        assert(bytes == utf8::encode_utf8(head) + utf8::encode_utf8(tail));
        assert(utf8::pop_first_scalar(bytes) == utf8::encode_utf8(all.drop_first()));
    }
}

/// The short form is the beginning of twelve bytes of an id without its algorithm, or all
/// of an id that has no more; an id has one wherever such a beginning is made of whole
/// characters.
pub proof fn law_short_form_is_twelve_bytes(id: Seq<char>, head: Seq<char>, tail: Seq<char>)
    requires
        id == "sha256:"@ + (head + tail) || (id == head + tail && !"sha256:"@.is_prefix_of(id)),
        utf8::encode_utf8(head).len() == 12 || (tail.len() == 0 && utf8::encode_utf8(head).len()
            < 12),
    ensures
        has_short_form(id),
        short_form(id) == head,
{
    law_the_algorithm_is_cut_off(head + tail, id);
    let bare = head + tail;
    assert(bare_id(id) == bare);
    lemma_encode_joined(head, tail);
    let bytes = utf8::encode_utf8(bare);
    assert(short_len(id) == utf8::encode_utf8(head).len()) by {
        if tail.len() == 0 {
            assert(utf8::encode_utf8(tail).len() == 0);
        }
    }
    assert(bytes.take(short_len(id)) == utf8::encode_utf8(head));
    utf8::encode_utf8_decode_utf8(head);
}

/// An id that has a short form is that beginning and a rest.
pub proof fn law_an_id_begins_with_its_short_form(id: Seq<char>) -> (rest: Seq<char>)
    requires
        has_short_form(id),
    ensures
        id == "sha256:"@ + (short_form(id) + rest) || id == short_form(id) + rest,
        utf8::encode_utf8(short_form(id)).len() == 12 || (rest.len() == 0 && utf8::encode_utf8(
            short_form(id),
        ).len() < 12),
{
    law_short_form_is_a_beginning(id);
    let bare = bare_id(id);
    let rest = bare.skip(short_form(id).len() as int);
    assert(bare == short_form(id) + rest);
    if "sha256:"@.is_prefix_of(id) {
        assert(id == "sha256:"@ + bare);
    }
    if short_len(id) < 12 {
        lemma_encode_joined(short_form(id), rest);
        assert(utf8::encode_utf8(rest).len() == 0);
        if rest.len() > 0 {
            utf8::encode_utf8_first_scalar(rest);
        }
    }
    rest
}

/// A reference is split into a repository and a tag if it is the two with a colon between,
/// and the tag holds neither a colon nor a slash. One that is no such thing has no tag: it
/// is the repository, and the tag is `latest`. So the tag is empty only where the reference
/// ends in a colon.
pub proof fn law_the_two_halves_of_a_reference(
    image: Seq<char>,
    name: Seq<char>,
    tag: Seq<char>,
)
    ensures
        image_ref(image) == (name, tag) <==> {
            ||| image == name + seq![':'] + tag && !tag.contains(':') && !tag.contains('/')
            ||| image == name && tag == "latest"@ && forall|n: Seq<char>, t: Seq<char>|
                image == #[trigger] (n + seq![':'] + t) ==> t.contains(':') || t.contains('/')
        },
        image_ref(image).1.len() == 0 ==> image.len() > 0 && image.last() == ':',
{
    reveal_strlit("latest");
    law_image_ref_is_the_reference(image);
    let (found, at) = image_ref(image);
    if image == found && at == "latest"@ {
        assert forall|n: Seq<char>, t: Seq<char>| image == #[trigger] (n + seq![':'] + t) implies
            t.contains(':') || t.contains('/') by {
            if !t.contains(':') && !t.contains('/') {
                law_image_ref_finds_the_tag(n, t);
                assert(found.len() < image.len());
            }
        }
    }
    if image == name + seq![':'] + tag && !tag.contains(':') && !tag.contains('/') {
        law_image_ref_finds_the_tag(name, tag);
    }
    if image == name && tag == "latest"@ && forall|n: Seq<char>, t: Seq<char>|
        image == #[trigger] (n + seq![':'] + t) ==> t.contains(':') || t.contains('/') {
        if image == found + seq![':'] + at {
            assert(at.contains(':') || at.contains('/'));
        }
    }
}

} // verus!
