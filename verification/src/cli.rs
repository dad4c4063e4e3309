use vstd::prelude::*;

verus! {

/// The arguments of one run: the input image path, the declared image type,
/// and the optional output path and dimension overrides.
pub struct ImageAnalyzer {
    /// The input image path
    pub image: String,
    /// The image type only support png and jpg
    pub image_type: String,
    /// The output image path
    pub output: Option<String>,
    /// Override for the height field
    pub height: Option<u16>,
    /// Override for the width field
    pub width: Option<u16>,
}

/// What the image-type flag selects.
#[derive(Debug, PartialEq, Eq, Structural, Clone, Copy)]
pub enum ImageKind {
    /// A stubbed format: nothing is modified.
    Png,
    /// The JPEG patch pipeline runs.
    Jpg,
    /// Anything else: nothing is read or modified.
    Unknown,
}

/// The kind selected by an image-type string.
pub open spec fn classify_spec(t: Seq<char>) -> ImageKind {
    if t == "png"@ {
        ImageKind::Png
    } else if t == "jpg"@ {
        ImageKind::Jpg
    } else {
        ImageKind::Unknown
    }
}

/// Compare two string slices character by character.
fn str_eq(a: &str, b: &str) -> (r: bool)
    ensures
        r <==> a@ == b@,
{
    let alen = a.unicode_len();
    let blen = b.unicode_len();
    if alen != blen {
        return false;
    }
    let mut i: usize = 0;
    while i < alen
        invariant
            alen == a@.len(),
            alen == b@.len(),
            i <= alen,
            forall|k: int| 0 <= k < i ==> a@[k] == b@[k],
        decreases alen - i,
    {
        if a.get_char(i) != b.get_char(i) {
            return false;
        }
        i = i + 1;
    }
    proof {
        assert(a@ =~= b@);
    }
    true
}

/// Decide which pipeline the image-type flag selects.
pub fn classify_image_type(image_type: &str) -> (k: ImageKind)
    ensures
        k == classify_spec(image_type@),
{
    if str_eq(image_type, "png") {
        ImageKind::Png
    } else if str_eq(image_type, "jpg") {
        ImageKind::Jpg
    } else {
        ImageKind::Unknown
    }
}

} // verus!
