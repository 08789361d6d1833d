//! The upload acceptance policy: only the multipart field carrying image
//! content is considered, the declared content type must belong to a fixed
//! allow-list, the payload must not exceed the size ceiling, and an accepted
//! upload is assigned a freshly generated collision-resistant filename with
//! the extension implied by its content type.

use vstd::prelude::*;
use vstd::string::StringExecFns;
use crate::text::str_eq;

verus! {

/// Ceiling on the byte length of an accepted upload: 5 MiB.
pub const MAX_IMAGE_BYTES: usize = 5 * 1024 * 1024;

/// The accepted image formats.
#[derive(Clone, Copy, Debug, PartialEq, Eq, Structural)]
pub enum ImageKind {
    Jpeg,
    Png,
    Webp,
}

/// Why an upload was turned away.
#[derive(Clone, Copy, Debug, PartialEq, Eq, Structural)]
pub enum UploadError {
    /// The declared content type is outside the allow-list.
    UnsupportedType,
    /// The payload exceeds the size ceiling.
    TooLarge,
}

/// The outcome of the acceptance policy for one multipart field.
pub enum MediaDecision {
    /// The field does not carry image content; not an error.
    Ignored,
    /// The field was considered and rejected.
    Rejected(UploadError),
    /// The upload is accepted under the given fresh filename.
    Accepted { filename: String, kind: ImageKind },
}

/// The format a declared content type names, if any is allowed.
pub open spec fn kind_of_content_type(ct: Seq<char>) -> Option<ImageKind> {
    if ct == "image/jpeg"@ || ct == "image/jpg"@ {
        Some(ImageKind::Jpeg)
    } else if ct == "image/png"@ {
        Some(ImageKind::Png)
    } else if ct == "image/webp"@ {
        Some(ImageKind::Webp)
    } else {
        None
    }
}

/// The filename extension implied by an accepted format, dot included.
pub open spec fn dot_ext_of_kind(k: ImageKind) -> Seq<char> {
    match k {
        ImageKind::Jpeg => ".jpg"@,
        ImageKind::Png => ".png"@,
        ImageKind::Webp => ".webp"@,
    }
}

/// A lowercase hexadecimal digit.
pub open spec fn is_hex_lower(c: char) -> bool {
    (48 <= c as u32 && c as u32 <= 57)  // 0..9
    || (97 <= c as u32 && c as u32 <= 102)  // a..f
}

/// The shape of a generated identifier: 36 characters, lowercase
/// hexadecimal digits with hyphens at positions 8, 13, 18 and 23.
/// The hyphen positions within a generated identifier.
pub open spec fn is_uuid_dash_pos(i: int) -> bool {
    i == 8 || i == 13 || i == 18 || i == 23
}

pub open spec fn is_uuid_text(s: Seq<char>) -> bool {
    &&& s.len() == 36
    &&& forall|i: int| 0 <= i < 36 && is_uuid_dash_pos(i) ==> #[trigger] s[i] == '-'
    &&& forall|i: int| 0 <= i < 36 && !is_uuid_dash_pos(i) ==> is_hex_lower(#[trigger] s[i])
}

/// A well-formed generated filename for the given format: a generated
/// identifier followed by the implied extension.
pub open spec fn filename_wf(f: Seq<char>, k: ImageKind) -> bool {
    &&& f.len() == 36 + dot_ext_of_kind(k).len()
    &&& is_uuid_text(f.take(36))
    &&& f.skip(36) == dot_ext_of_kind(k)
}

/// Relies on `uuid::Uuid::new_v4` and its `Display` impl: a freshly drawn
/// random 128-bit version-4 identifier, rendered in the hyphenated
/// lowercase form. Only the shape of the text is assumed; distinct calls
/// may return anything of that shape.
#[verifier::external_body]
fn fresh_id() -> (r: String)
    ensures
        is_uuid_text(r@),
{
    uuid::Uuid::new_v4().to_string()
}

fn content_type_kind(ct: &str) -> (r: Option<ImageKind>)
    ensures
        r == kind_of_content_type(ct@),
{
    if str_eq(ct, "image/jpeg") || str_eq(ct, "image/jpg") {
        Some(ImageKind::Jpeg)
    } else if str_eq(ct, "image/png") {
        Some(ImageKind::Png)
    } else if str_eq(ct, "image/webp") {
        Some(ImageKind::Webp)
    } else {
        None
    }
}

/// Generate the filename for an accepted upload: a fresh identifier with
/// the extension the format implies.
fn generate_filename(kind: ImageKind) -> (r: String)
    ensures
        filename_wf(r@, kind),
{
    let id = fresh_id();
    let ghost idv = id@;
    let r = match kind {
        ImageKind::Jpeg => id.concat(".jpg"),
        ImageKind::Png => id.concat(".png"),
        ImageKind::Webp => id.concat(".webp"),
    };
    proof {
        assert(r@.take(36) =~= idv);
        assert(r@.skip(36) =~= dot_ext_of_kind(kind));
    }
    r
}

/// Apply the acceptance policy to one multipart field. Only the field
/// named `image` is considered; for it, the declared content type is
/// checked against the allow-list first, the size ceiling second, and an
/// accepted upload is assigned a fresh filename.
pub fn accept(field_name: &str, content_type: &str, bytes: &Vec<u8>) -> (r: MediaDecision)
    ensures
        r is Ignored <==> field_name@ != "image"@,
        r == MediaDecision::Rejected(UploadError::UnsupportedType) <==> (field_name@ == "image"@
            && kind_of_content_type(content_type@) is None),
        r == MediaDecision::Rejected(UploadError::TooLarge) <==> (field_name@ == "image"@
            && kind_of_content_type(content_type@) is Some && bytes@.len() > MAX_IMAGE_BYTES),
        r is Accepted <==> (field_name@ == "image"@ && kind_of_content_type(content_type@) is Some
            && bytes@.len() <= MAX_IMAGE_BYTES),
        r matches MediaDecision::Accepted { filename, kind } ==> {
            &&& Some(kind) == kind_of_content_type(content_type@)
            &&& filename_wf(filename@, kind)
        },
{
    if !str_eq(field_name, "image") {
        return MediaDecision::Ignored;
    }
    let kind = match content_type_kind(content_type) {
        Option::None => {
            return MediaDecision::Rejected(UploadError::UnsupportedType);
        },
        Option::Some(k) => k,
    };
    if bytes.len() > MAX_IMAGE_BYTES {
        return MediaDecision::Rejected(UploadError::TooLarge);
    }
    let filename = generate_filename(kind);
    MediaDecision::Accepted { filename, kind }
}

} // verus!
