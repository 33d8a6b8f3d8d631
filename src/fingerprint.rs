//! Content fingerprint: a summary of a few embedded metadata tags and its
//! 64-bit hash.

use vstd::prelude::*;
use vstd::string::*;

verus! {

/// What an optional text field reads as: its characters, or `None`.
pub open spec fn opt_view(f: Option<String>) -> Option<Seq<char>> {
    match f {
        Some(s) => Some(s@),
        None => None,
    }
}

/// What an optional text field contributes to the hashed text: its
/// characters, or nothing when it is absent.
pub open spec fn field_text(f: Option<Seq<char>>) -> Seq<char> {
    match f {
        Some(s) => s,
        None => Seq::empty(),
    }
}

/// Two optional values joined by `sep` when both are present; the one that is
/// present when only one is; absent when neither is.
pub open spec fn join_either(a: Option<Seq<char>>, b: Option<Seq<char>>, sep: char) -> Option<
    Seq<char>,
> {
    match (a, b) {
        (Some(x), Some(y)) => Some(x + seq![sep] + y),
        (Some(x), None) => Some(x),
        (None, Some(y)) => Some(y),
        (None, None) => None,
    }
}

/// The raw tag values a fingerprint is built from, each one absent when the
/// image does not carry it.
#[derive(Clone, Debug)]
pub struct MetadataTags {
    pub datetime_original: Option<String>,
    pub make: Option<String>,
    pub model: Option<String>,
    pub body_serial: Option<String>,
    pub image_unique_id: Option<String>,
    pub pixel_width: Option<String>,
    pub pixel_height: Option<String>,
}

/// The fields of a fingerprint, as text.
pub struct SummaryView {
    pub datetime_original: Option<Seq<char>>,
    pub make_model: Option<Seq<char>>,
    pub camera_serial: Option<Seq<char>>,
    pub image_unique_id: Option<Seq<char>>,
    pub image_dimensions: Option<Seq<char>>,
}

/// Summary of the embedded metadata of an image, compared between runs
/// through its hash.
#[derive(Clone, Debug)]
pub struct ExifSummary {
    pub datetime_original: Option<String>,
    pub make_model: Option<String>,
    pub camera_serial: Option<String>,
    pub image_unique_id: Option<String>,
    pub image_dimensions: Option<String>,
}

impl View for ExifSummary {
    type V = SummaryView;

    open spec fn view(&self) -> SummaryView {
        SummaryView {
            datetime_original: opt_view(self.datetime_original),
            make_model: opt_view(self.make_model),
            camera_serial: opt_view(self.camera_serial),
            image_unique_id: opt_view(self.image_unique_id),
            image_dimensions: opt_view(self.image_dimensions),
        }
    }
}

/// The fingerprint that seven tag values give: make and model joined by `/`,
/// width and height joined by `x` (in either pair, the one present when only
/// one is), the other fields as they are.
pub open spec fn summary_of_tags(
    datetime_original: Option<Seq<char>>,
    make: Option<Seq<char>>,
    model: Option<Seq<char>>,
    body_serial: Option<Seq<char>>,
    image_unique_id: Option<Seq<char>>,
    pixel_width: Option<Seq<char>>,
    pixel_height: Option<Seq<char>>,
) -> SummaryView {
    SummaryView {
        datetime_original,
        make_model: join_either(make, model, '/'),
        camera_serial: body_serial,
        image_unique_id,
        image_dimensions: join_either(pixel_width, pixel_height, 'x'),
    }
}

impl MetadataTags {
    /// The fingerprint these tags give.
    pub open spec fn summary(self) -> SummaryView {
        summary_of_tags(
            opt_view(self.datetime_original),
            opt_view(self.make),
            opt_view(self.model),
            opt_view(self.body_serial),
            opt_view(self.image_unique_id),
            opt_view(self.pixel_width),
            opt_view(self.pixel_height),
        )
    }
}

/// The text that is hashed: the five fields in order, separated by `:`, an
/// absent field standing as the empty string.
pub open spec fn summary_text(v: SummaryView) -> Seq<char> {
    field_text(v.datetime_original) + seq![':'] + field_text(v.make_model) + seq![':']
        + field_text(v.camera_serial) + seq![':'] + field_text(v.image_unique_id) + seq![':']
        + field_text(v.image_dimensions)
}

/// The 64-bit FNV hash of a text's UTF-8 bytes.
pub uninterp spec fn fnv_hash_of(text: Seq<char>) -> u64;

/// The hash by which two fingerprints are compared.
pub open spec fn summary_hash(v: SummaryView) -> u64 {
    fnv_hash_of(summary_text(v))
}

/// Relies on fnv::FnvHasher (default key, `write`, `finish`): the FNV hash of
/// the text's UTF-8 bytes, which depends on the text alone.
#[verifier::external_body]
fn fnv_hash(text: &str) -> (r: u64)
    ensures
        r == fnv_hash_of(text@),
{
    let mut hasher = fnv::FnvHasher::default();
    std::hash::Hasher::write(&mut hasher, text.as_bytes());
    std::hash::Hasher::finish(&hasher)
}

fn append_field(s: &mut String, f: &Option<String>)
    ensures
        final(s)@ == old(s)@ + field_text(opt_view(*f)),
{
    match f {
        Some(v) => s.append(v.as_str()),
        None => {},
    }
}

fn join_optional(a: Option<String>, b: Option<String>, sep: &str) -> (r: Option<String>)
    requires
        sep@.len() == 1,
    ensures
        opt_view(r) == join_either(opt_view(a), opt_view(b), sep@[0]),
{
    match a {
        Some(x) => match b {
            Some(y) => {
                let mut s = x;
                s.append(sep);
                s.append(y.as_str());
                assert(sep@ == seq![sep@[0]]);
                Some(s)
            },
            None => Some(x),
        },
        None => b,
    }
}

/// Parsed embedded metadata of an image, as the `exif` crate holds it.
#[verifier::external_type_specification]
#[verifier::external_body]
pub struct ExExif(exif::Exif);

/// The metadata tags a fingerprint reads.
pub enum MetaTag {
    DateTimeOriginal,
    Make,
    Model,
    BodySerialNumber,
    ImageUniqueId,
    PixelXDimension,
    PixelYDimension,
}

/// The text of a tag of the primary image, as the `exif` crate renders it,
/// or `None` when the image lacks the tag.
pub uninterp spec fn exif_tag_text(meta: exif::Exif, tag: MetaTag) -> Option<Seq<char>>;

/// The fingerprint of parsed image metadata.
pub open spec fn exif_summary_of(meta: exif::Exif) -> SummaryView {
    summary_of_tags(
        exif_tag_text(meta, MetaTag::DateTimeOriginal),
        exif_tag_text(meta, MetaTag::Make),
        exif_tag_text(meta, MetaTag::Model),
        exif_tag_text(meta, MetaTag::BodySerialNumber),
        exif_tag_text(meta, MetaTag::ImageUniqueId),
        exif_tag_text(meta, MetaTag::PixelXDimension),
        exif_tag_text(meta, MetaTag::PixelYDimension),
    )
}

/// Relies on exif::Exif::get_field (primary image) and Field::display_value:
/// the tag's value rendered as text, or `None` when the image lacks the tag;
/// the text depends on the parsed metadata and the tag alone.
#[verifier::external_body]
fn tag_text(meta: &exif::Exif, tag: MetaTag) -> (r: Option<String>)
    ensures
        opt_view(r) == exif_tag_text(*meta, tag),
{
    let tag = match tag {
        MetaTag::DateTimeOriginal => exif::Tag::DateTimeOriginal,
        MetaTag::Make => exif::Tag::Make,
        MetaTag::Model => exif::Tag::Model,
        MetaTag::BodySerialNumber => exif::Tag::BodySerialNumber,
        MetaTag::ImageUniqueId => exif::Tag::ImageUniqueID,
        MetaTag::PixelXDimension => exif::Tag::PixelXDimension,
        MetaTag::PixelYDimension => exif::Tag::PixelYDimension,
    };
    meta.get_field(tag, exif::In::PRIMARY).map(|f| f.display_value().to_string())
}

impl MetadataTags {
    /// Reads the tags a fingerprint needs from parsed image metadata.
    pub fn from_exif(meta: &exif::Exif) -> (r: MetadataTags)
        ensures
            opt_view(r.datetime_original) == exif_tag_text(*meta, MetaTag::DateTimeOriginal),
            opt_view(r.make) == exif_tag_text(*meta, MetaTag::Make),
            opt_view(r.model) == exif_tag_text(*meta, MetaTag::Model),
            opt_view(r.body_serial) == exif_tag_text(*meta, MetaTag::BodySerialNumber),
            opt_view(r.image_unique_id) == exif_tag_text(*meta, MetaTag::ImageUniqueId),
            opt_view(r.pixel_width) == exif_tag_text(*meta, MetaTag::PixelXDimension),
            opt_view(r.pixel_height) == exif_tag_text(*meta, MetaTag::PixelYDimension),
            r.summary() == exif_summary_of(*meta),
    {
        MetadataTags {
            datetime_original: tag_text(meta, MetaTag::DateTimeOriginal),
            make: tag_text(meta, MetaTag::Make),
            model: tag_text(meta, MetaTag::Model),
            body_serial: tag_text(meta, MetaTag::BodySerialNumber),
            image_unique_id: tag_text(meta, MetaTag::ImageUniqueId),
            pixel_width: tag_text(meta, MetaTag::PixelXDimension),
            pixel_height: tag_text(meta, MetaTag::PixelYDimension),
        }
    }
}

impl ExifSummary {
    /// Builds the fingerprint of parsed image metadata.
    pub fn from_exif(meta: &exif::Exif) -> (r: ExifSummary)
        ensures
            r@ == exif_summary_of(*meta),
    {
        ExifSummary::from_tags(MetadataTags::from_exif(meta))
    }

    /// Builds the fingerprint of an image from its raw tag values.
    pub fn from_tags(tags: MetadataTags) -> (r: ExifSummary)
        ensures
            r@ == tags.summary(),
    {
        proof {
            reveal_strlit("/");
            reveal_strlit("x");
        }
        let make_model = join_optional(tags.make, tags.model, "/");
        let image_dimensions = join_optional(tags.pixel_width, tags.pixel_height, "x");
        ExifSummary {
            datetime_original: tags.datetime_original,
            make_model,
            camera_serial: tags.body_serial,
            image_unique_id: tags.image_unique_id,
            image_dimensions,
        }
    }

    /// The text that is hashed: the five fields joined by `:`.
    pub fn hash_text(&self) -> (r: String)
        ensures
            r@ == summary_text(self@),
    {
        proof {
            reveal_strlit(":");
        }
        let mut s = String::new();
        append_field(&mut s, &self.datetime_original);
        s.append(":");
        append_field(&mut s, &self.make_model);
        s.append(":");
        append_field(&mut s, &self.camera_serial);
        s.append(":");
        append_field(&mut s, &self.image_unique_id);
        s.append(":");
        append_field(&mut s, &self.image_dimensions);
        s
    }

    /// The 64-bit hash by which fingerprints are compared.
    pub fn calc_hash(&self) -> (r: u64)
        ensures
            r == summary_hash(self@),
    {
        let text = self.hash_text();
        fnv_hash(text.as_str())
    }
}

} // verus!
