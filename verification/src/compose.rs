//! Post composition: deciding whether an item's primary text and its
//! translation fit one post or must be split into a post and a reply.
//!
//! The platform limit is 280 characters of body; two are reserved for the
//! blank line separating the primary text from its translation.  When both
//! fit, a single post carries `primary + "\n\n" + translation` with all
//! media attached; when they do not, the primary text is posted alone with
//! the media and the translation follows as a media-less reply.

use vstd::prelude::*;
use vstd::string::StringExecFns;
use vstd::string::StrSliceExecFns;

verus! {

/// The platform's character limit for one post body.
pub const MAX_POST_LEN: usize = 280;

/// Length of the blank-line separator between primary text and translation.
pub const SEPARATOR_LEN: usize = 2;

/// Whether bodies of `primary_len` and `translated_len` characters,
/// joined by the separator, exceed the platform limit.
pub open spec fn spec_should_split(primary_len: nat, translated_len: nat) -> bool {
    primary_len + translated_len + SEPARATOR_LEN > MAX_POST_LEN
}

/// A composed publication: the primary post body, an optional reply body,
/// and the uploaded media identifiers to attach to the primary post.
pub struct ComposedPost {
    pub primary_body: String,
    pub reply_body: Option<String>,
    pub media_ids: Vec<u64>,
}

/// Runtime form of [`spec_should_split`] on the two text bodies.
pub fn should_split(text: &String, translated_text: &String) -> (split: bool)
    ensures
        split == spec_should_split(text@.len(), translated_text@.len()),
{
    let a = text.as_str().unicode_len();
    let b = translated_text.as_str().unicode_len();
    a > MAX_POST_LEN || b > MAX_POST_LEN || a + b + SEPARATOR_LEN > MAX_POST_LEN
}

/// Composes the publication for one item.  If the combined length
/// (`len(text) + len(translated_text) + 2` characters) stays within the
/// platform limit, the single post body is the two texts joined by a blank
/// line and there is no reply; otherwise the primary body is `text` alone
/// and `translated_text` becomes the reply.  The media identifiers are
/// attached unchanged, in order.
pub fn compose_post(text: String, translated_text: String, media_ids: Vec<u64>) -> (post: ComposedPost)
    ensures
        post.media_ids == media_ids,
        spec_should_split(text@.len(), translated_text@.len()) ==> post.primary_body@ == text@
            && (post.reply_body matches Some(r) && r@ == translated_text@),
        !spec_should_split(text@.len(), translated_text@.len()) ==> post.primary_body@ == text@
            + "\n\n"@ + translated_text@ && post.reply_body is None,
{
    if should_split(&text, &translated_text) {
        ComposedPost { primary_body: text, reply_body: Some(translated_text), media_ids }
    } else {
        let joined = text.concat("\n\n").concat(translated_text.as_str());
        ComposedPost { primary_body: joined, reply_body: None, media_ids }
    }
}

} // verus!
