//! What the server answers to each tool request.

use vstd::prelude::*;
use crate::report::{design_report, design_report_spec, DesignSummary};
use crate::text::{concat2, concat3};

verus! {

/// One piece of a reply.
pub enum ReplyContent {
    Text(String),
    /// An image, its bytes in base64.
    Image { data: String, mime_type: String },
}

/// The answer to a tool request; `is_error` marks a request that failed.
pub struct ToolReply {
    pub is_error: bool,
    pub contents: Vec<ReplyContent>,
}

/// A piece of a reply as text.
pub enum ContentModel {
    Text(Seq<char>),
    Image { data: Seq<char>, mime_type: Seq<char> },
}

/// A reply as text.
pub struct ReplyModel {
    pub is_error: bool,
    pub contents: Seq<ContentModel>,
}

impl View for ReplyContent {
    type V = ContentModel;

    open spec fn view(&self) -> ContentModel {
        match self {
            ReplyContent::Text(t) => ContentModel::Text(t@),
            ReplyContent::Image { data, mime_type } => ContentModel::Image {
                data: data@,
                mime_type: mime_type@,
            },
        }
    }
}

impl View for ToolReply {
    type V = ReplyModel;

    open spec fn view(&self) -> ReplyModel {
        ReplyModel {
            is_error: self.is_error,
            contents: self.contents@.map_values(|c: ReplyContent| c@),
        }
    }
}

/// A reply made of one text.
pub open spec fn text_reply_model(is_error: bool, message: Seq<char>) -> ReplyModel {
    ReplyModel { is_error, contents: seq![ContentModel::Text(message)] }
}

/// The base64 text (standard alphabet, with padding) of some bytes.
pub uninterp spec fn base64_standard(bytes: Seq<u8>) -> Seq<char>;

/// Encodes bytes with `base64::engine::general_purpose::STANDARD`, that is
/// the standard alphabet with '=' padding. The contract claims that the
/// result is a function of the bytes alone, named `base64_standard`; that it
/// has four characters for each started group of three bytes, the length
/// the crate's `encoded_len` gives with padding and allocates for; and that
/// no other bytes have the same encoding, as the crate's round-trip tests
/// show by decoding every encoding back to its input. Which characters it
/// holds is left to the crate. The crate panics only when the encoded
/// length overflows `usize`, which the bound on the input rules out.
#[verifier::external_body]
fn encode_base64(bytes: &Vec<u8>) -> (encoded: String)
    requires
        bytes@.len() <= isize::MAX,
    ensures
        encoded@ == base64_standard(bytes@),
        encoded@.len() == 4 * ((bytes@.len() + 2) / 3),
        forall|other: Seq<u8>| #[trigger] base64_standard(other) == encoded@ ==> other == bytes@,
{
    base64::Engine::encode(&base64::engine::general_purpose::STANDARD, bytes)
}

/// `text` is the base64 text of exactly `bytes`: their encoding, four
/// characters for each started group of three bytes, and the encoding of no
/// other bytes, so that it decodes back to `bytes` and nothing else.
pub open spec fn encodes_exactly(text: Seq<char>, bytes: Seq<u8>) -> bool {
    &&& text == base64_standard(bytes)
    &&& text.len() == 4 * ((bytes.len() + 2) / 3)
    &&& forall|other: Seq<u8>| #[trigger] base64_standard(other) == text ==> other == bytes
}

/// Every image that could be read is encoded exactly.
pub open spec fn images_encoded_exactly(images: Seq<Option<Vec<u8>>>) -> bool {
    forall|k: int|
        0 <= k < images.len() ==> (#[trigger] images[k] matches Some(b) ==> encodes_exactly(
            base64_standard(b@),
            b@,
        ))
}

fn text_reply(is_error: bool, message: String) -> (reply: ToolReply)
    ensures
        reply@ == text_reply_model(is_error, message@),
{
    let mut contents: Vec<ReplyContent> = Vec::new();
    contents.push(ReplyContent::Text(message));
    let reply = ToolReply { is_error, contents };
    assert(reply@.contents =~= seq![ContentModel::Text(message@)]);
    reply
}

/// The preview images that could be read, as base64, in order.
pub open spec fn encoded_images(images: Seq<Option<Vec<u8>>>) -> Seq<Seq<char>>
    decreases images.len(),
{
    if images.len() == 0 {
        Seq::empty()
    } else {
        let rest = encoded_images(images.drop_last());
        match images.last() {
            Some(bytes) => rest.push(base64_standard(bytes@)),
            None => rest,
        }
    }
}

/// The heading of the reply to a design that was written and previewed.
pub open spec fn preview_heading(path: Seq<char>) -> Seq<char> {
    "Wrote "@ + path + ". Preview (isometric, front, top, right, back, top-right, top-left):"@
}

/// The image pieces of a reply, one per encoded image.
pub open spec fn png_contents(encoded: Seq<Seq<char>>) -> Seq<ContentModel> {
    encoded.map_values(|d: Seq<char>| ContentModel::Image { data: d, mime_type: "image/png"@ })
}

/// The reply to a design file that could not be written.
pub fn write_failed_reply(error: &str) -> (reply: ToolReply)
    ensures
        reply@ == text_reply_model(true, "Error: "@ + error@),
{
    text_reply(true, concat2("Error: ", error))
}

/// The reply to a design written to `path`: with the preview images that
/// could be read (`None` for one that could not), or, when no preview could
/// be rendered, with the reason.
pub fn written_reply(path: &str, previews: Result<Vec<Option<Vec<u8>>>, String>) -> (reply: ToolReply)
    requires
        previews matches Ok(images) ==> forall|k: int|
            0 <= k < images.len() ==> (#[trigger] images[k] matches Some(b) ==> b@.len()
                <= isize::MAX),
    ensures
        match previews {
            Ok(images) => reply@ == (ReplyModel {
                is_error: false,
                contents: seq![ContentModel::Text(preview_heading(path@))] + png_contents(
                    encoded_images(images@),
                ),
            }) && images_encoded_exactly(images@),
            Err(e) => reply@ == text_reply_model(
                false,
                "Wrote "@ + path@ + " (preview unavailable: "@ + e@ + ")"@,
            ),
        },
{
    match previews {
        Err(e) => {
            let mut message = String::from_str("Wrote ");
            message.append(path);
            message.append(" (preview unavailable: ");
            message.append(e.as_str());
            message.append(")");
            text_reply(false, message)
        },
        Ok(images) => {
            let heading = concat3(
                "Wrote ",
                path,
                ". Preview (isometric, front, top, right, back, top-right, top-left):",
            );
            let ghost head = seq![ContentModel::Text(heading@)];
            let mut contents: Vec<ReplyContent> = Vec::new();
            contents.push(ReplyContent::Text(heading));
            let mut i: usize = 0;
            while i < images.len()
                invariant
                    0 <= i <= images.len(),
                    forall|k: int|
                        0 <= k < images.len() ==> (#[trigger] images[k] matches Some(b) ==> b@.len()
                            <= isize::MAX),
                    contents@.map_values(|c: ReplyContent| c@) == head + png_contents(
                        encoded_images(images@.take(i as int)),
                    ),
                    images_encoded_exactly(images@.take(i as int)),
                decreases images.len() - i,
            {
                assert(images@.take(i as int + 1).drop_last() =~= images@.take(i as int));
                match &images[i] {
                    Some(bytes) => {
                        let data = encode_base64(bytes);
                        let piece = ReplyContent::Image { data, mime_type: String::from_str("image/png") };
                        let ghost before = contents@;
                        contents.push(piece);
                        assert(contents@.map_values(|c: ReplyContent| c@) =~= before.map_values(
                            |c: ReplyContent| c@,
                        ).push(piece@));
                        assert(png_contents(encoded_images(images@.take(i as int + 1))) =~= png_contents(
                            encoded_images(images@.take(i as int)),
                        ).push(piece@));
                    },
                    None => {},
                }
                assert forall|k: int| 0 <= k < i + 1 implies (#[trigger] images@.take(i as int + 1)[k] matches Some(
                    b,
                ) ==> encodes_exactly(base64_standard(b@), b@)) by {
                    if k < i {
                        assert(images@.take(i as int + 1)[k] == images@.take(i as int)[k]);
                    }
                }
                i = i + 1;
            }
            assert(images@.take(images.len() as int) =~= images@);
            ToolReply { is_error: false, contents }
        },
    }
}

/// The reply to a rendered preview: on success the design file, the image
/// file and, when it could be read, the image itself.
pub fn preview_reply(rendered: Result<(String, String, Option<Vec<u8>>), String>) -> (reply: ToolReply)
    requires
        rendered matches Ok((_, _, Some(b))) ==> b@.len() <= isize::MAX,
    ensures
        match rendered {
            Ok((scad, png, image)) => reply@ == (ReplyModel {
                is_error: false,
                contents: seq![ContentModel::Text("Rendered "@ + scad@ + " to "@ + png@ + "."@)]
                    + png_contents(encoded_images(seq![image])),
            }) && images_encoded_exactly(seq![image]),
            Err(e) => reply@ == text_reply_model(true, "Error rendering preview: "@ + e@),
        },
{
    match rendered {
        Err(e) => text_reply(true, concat2("Error rendering preview: ", e.as_str())),
        Ok((scad, png, image)) => {
            let mut message = String::from_str("Rendered ");
            message.append(scad.as_str());
            message.append(" to ");
            message.append(png.as_str());
            message.append(".");
            let ghost heading = message@;
            let mut contents: Vec<ReplyContent> = Vec::new();
            contents.push(ReplyContent::Text(message));
            let ghost img = image;
            proof {
                assert(seq![img].drop_last() =~= Seq::<Option<Vec<u8>>>::empty());
                assert(seq![img].last() == img);
                assert(encoded_images(Seq::<Option<Vec<u8>>>::empty()) =~= Seq::<Seq<char>>::empty());
                assert(encoded_images(seq![img]) == encoded_images(seq![img].drop_last()).push(
                    base64_standard(img->0@),
                ) || img is None);
            }
            match image {
                Some(bytes) => {
                    let data = encode_base64(&bytes);
                    let piece = ReplyContent::Image { data, mime_type: String::from_str("image/png") };
                    assert(encoded_images(seq![img]) =~= seq![base64_standard(bytes@)]);
                    assert(png_contents(encoded_images(seq![img])) =~= seq![piece@]);
                    contents.push(piece);
                },
                None => {
                    assert(encoded_images(seq![img]) =~= Seq::<Seq<char>>::empty());
                    assert(png_contents(encoded_images(seq![img])) =~= Seq::<ContentModel>::empty());
                },
            }
            let reply = ToolReply { is_error: false, contents };
            assert(reply@.contents =~= seq![ContentModel::Text(heading)] + png_contents(
                encoded_images(seq![img]),
            ));
            reply
        },
    }
}

/// The text that tells where an exported STL file is.
pub open spec fn exported_message(path: Seq<char>) -> Seq<char> {
    "STL exported to "@ + path
        + " on the user's local machine. Do NOT attempt to copy or move this file \u{2014} it is a local path that only the user can access."@
}

/// The reply to an STL export.
pub fn exported_reply(exported: Result<String, String>) -> (reply: ToolReply)
    ensures
        match exported {
            Ok(path) => reply@ == text_reply_model(false, exported_message(path@)),
            Err(e) => reply@ == text_reply_model(true, "Error exporting STL: "@ + e@),
        },
{
    match exported {
        Ok(path) => text_reply(
            false,
            concat3(
                "STL exported to ",
                path.as_str(),
                " on the user's local machine. Do NOT attempt to copy or move this file \u{2014} it is a local path that only the user can access.",
            ),
        ),
        Err(e) => text_reply(true, concat2("Error exporting STL: ", e.as_str())),
    }
}

/// The reply to design parameters that could not be read.
pub fn parameters_error_reply(error: &str) -> (reply: ToolReply)
    ensures
        reply@ == text_reply_model(true, "Error parsing parameters: "@ + error@),
{
    text_reply(true, concat2("Error parsing parameters: ", error))
}

/// The reply to saving the metadata of the design `filename`.
pub fn metadata_saved_reply(filename: &str, saved: Result<(), String>) -> (reply: ToolReply)
    ensures
        match saved {
            Ok(_) => reply@ == text_reply_model(
                false,
                "Metadata saved for "@ + filename@
                    + ". Parameters and suggestions are now available for iteration."@,
            ),
            Err(e) => reply@ == text_reply_model(true, "Error saving metadata: "@ + e@),
        },
{
    match saved {
        Ok(_) => text_reply(
            false,
            concat3(
                "Metadata saved for ",
                filename,
                ". Parameters and suggestions are now available for iteration.",
            ),
        ),
        Err(e) => text_reply(true, concat2("Error saving metadata: ", e.as_str())),
    }
}

/// What the reply to a request for saved metadata says.
pub open spec fn suggestions_reply_model(loaded: Result<DesignSummary, String>) -> ReplyModel {
    match loaded {
        Ok(d) => text_reply_model(false, design_report_spec(d)),
        Err(e) => text_reply_model(
            true,
            "No metadata found for this design. Save metadata first with save_design_metadata. Error: "@
                + e@,
        ),
    }
}

/// The reply to a request for the saved metadata of a design: the design
/// presented, or the reason there is none.
pub fn suggestions_reply(loaded: Result<DesignSummary, String>) -> (reply: ToolReply)
    ensures
        reply@ == suggestions_reply_model(loaded),
{
    match loaded {
        Ok(d) => text_reply(false, design_report(&d)),
        Err(e) => text_reply(
            true,
            concat2(
                "No metadata found for this design. Save metadata first with save_design_metadata. Error: ",
                e.as_str(),
            ),
        ),
    }
}

/// The reply to a request for a tool the server does not have.
pub fn unknown_tool_reply(name: &str) -> (reply: ToolReply)
    ensures
        reply@ == text_reply_model(true, "Unknown tool: "@ + name@),
{
    text_reply(true, concat2("Unknown tool: ", name))
}

} // verus!
