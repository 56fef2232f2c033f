//! What is done with a finished selection: the captured image is classed by
//! its content and, where it holds text, read by the text recognizer.

use crate::overlay::selection_overlay::SelectionResult;
use vstd::prelude::*;
use vstd::string::StringExecFns;
use vstd::utf8::encode_utf8;

verus! {

/// Bytes of image text above which an image is taken to hold writing.
pub const TEXT_PATTERN_THRESHOLD: usize = 1000;

/// The state of a drag on the full-screen overlay, in whole pixels.
#[derive(Clone, Copy, Debug, PartialEq, Eq, Structural)]
pub struct DragState {
    pub is_dragging: bool,
    pub start_x: i32,
    pub start_y: i32,
    pub current_x: i32,
    pub current_y: i32,
}

impl Default for DragState {
    /// No drag, with every coordinate at the origin.
    fn default() -> (state: Self)
        ensures
            state == (DragState {
                is_dragging: false,
                start_x: 0,
                start_y: 0,
                current_x: 0,
                current_y: 0,
            }),
    {
        DragState { is_dragging: false, start_x: 0, start_y: 0, current_x: 0, current_y: 0 }
    }
}

/// What an image holds.
#[derive(Clone, Copy, Debug, PartialEq, Eq, Structural)]
pub enum ContentType {
    PlainText,
    ImageWithText,
    PureImage,
    Unknown,
}

/// What the look at an image found.
#[derive(Debug, PartialEq, Eq)]
pub struct ContentAnalysis {
    /// What the image holds.
    pub content_type: ContentType,
    /// How sure that is, in hundredths.
    pub confidence_percent: u8,
    /// The text, where the look itself found any.
    pub text_content: Option<String>,
    /// Whether the text recognizer should read the image.
    pub needs_ocr: bool,
}

/// A selection after it has been worked on.
#[derive(Debug, PartialEq, Eq)]
pub struct ProcessedContent {
    /// What the image holds.
    pub content_type: ContentType,
    /// The text that was read from it, if any.
    pub extracted_text: Option<String>,
    /// What is said of it.
    pub ai_analysis: Option<String>,
}

/// A processed selection as contracts speak of it.
pub struct ProcessedView {
    pub content_type: ContentType,
    pub extracted_text: Option<Seq<char>>,
    pub ai_analysis: Option<Seq<char>>,
}

impl View for ProcessedContent {
    type V = ProcessedView;

    open spec fn view(&self) -> ProcessedView {
        ProcessedView {
            content_type: self.content_type,
            extracted_text: match self.extracted_text {
                Some(text) => Some(text@),
                None => None,
            },
            ai_analysis: match self.ai_analysis {
                Some(text) => Some(text@),
                None => None,
            },
        }
    }
}

/// Whether an image is taken to hold writing: its text is longer than
/// `TEXT_PATTERN_THRESHOLD` bytes.
pub open spec fn has_text_patterns(image_data: Seq<char>) -> bool {
    encode_utf8(image_data).len() > TEXT_PATTERN_THRESHOLD
}

/// What an image is classed as.
pub open spec fn spec_content_type(image_data: Seq<char>) -> ContentType {
    if has_text_patterns(image_data) {
        ContentType::ImageWithText
    } else {
        ContentType::PureImage
    }
}

/// What is made of content of the given kind, where `ocr_text` is what the
/// text recognizer read if it was asked.
pub open spec fn processed(content_type: ContentType, ocr_text: Seq<char>) -> ProcessedView {
    match content_type {
        ContentType::PlainText => ProcessedView {
            content_type,
            extracted_text: Some("Detected plain text content"@),
            ai_analysis: Some(
                "This appears to be plain text content that can be directly processed."@,
            ),
        },
        ContentType::ImageWithText => ProcessedView {
            content_type,
            extracted_text: Some(ocr_text),
            ai_analysis: Some("OCR extracted text: "@ + ocr_text),
        },
        ContentType::PureImage => ProcessedView {
            content_type,
            extracted_text: None,
            ai_analysis: Some("This appears to be an image without significant text content."@),
        },
        ContentType::Unknown => ProcessedView {
            content_type,
            extracted_text: None,
            ai_analysis: Some("Content type could not be determined."@),
        },
    }
}

/// What processing gives once the text recognizer has come back with
/// `outcome`.
pub open spec fn ocr_answer(outcome: Result<String, String>) -> Result<ProcessedView, String> {
    match outcome {
        Ok(text) => Ok(processed(ContentType::ImageWithText, text@)),
        Err(reason) => Err(reason),
    }
}

/// What processing gave, as contracts speak of it.
pub open spec fn processed_view(r: Result<ProcessedContent, String>) -> Result<ProcessedView, String> {
    match r {
        Ok(content) => Ok(content@),
        Err(reason) => Err(reason),
    }
}

/// The full-screen overlay on which a selection is dragged.
pub struct InteractiveOverlay {
    drag_state: DragState,
}

impl InteractiveOverlay {
    /// An overlay on which no drag is under way.
    pub fn new() -> (overlay: Self)
        ensures
            overlay.drag_state() == (DragState {
                is_dragging: false,
                start_x: 0,
                start_y: 0,
                current_x: 0,
                current_y: 0,
            }),
    {
        InteractiveOverlay { drag_state: DragState::default() }
    }

    /// The state of the drag.
    pub closed spec fn drag_state(&self) -> DragState {
        self.drag_state
    }

    /// Classes an image by the length of its text: a long one is taken to
    /// hold writing and is to be read, a short one is taken for a picture.
    pub fn analyze_content(image_data: &str) -> (analysis: ContentAnalysis)
        ensures
            analysis.content_type == spec_content_type(image_data@),
            analysis.needs_ocr == has_text_patterns(image_data@),
            analysis.confidence_percent == (if has_text_patterns(image_data@) {
                80u8
            } else {
                90u8
            }),
            analysis.text_content is None,
    {
        if image_data.as_bytes().len() > TEXT_PATTERN_THRESHOLD {
            ContentAnalysis {
                content_type: ContentType::ImageWithText,
                confidence_percent: 80,
                text_content: None,
                needs_ocr: true,
            }
        } else {
            ContentAnalysis {
                content_type: ContentType::PureImage,
                confidence_percent: 90,
                text_content: None,
                needs_ocr: false,
            }
        }
    }

    /// What is made of content that the text recognizer need not read.
    pub fn describe(content_type: ContentType) -> (content: ProcessedContent)
        requires
            content_type != ContentType::ImageWithText,
        ensures
            content@ == processed(content_type, Seq::<char>::empty()),
    {
        match content_type {
            ContentType::PlainText => ProcessedContent {
                content_type,
                extracted_text: Some(String::from_str("Detected plain text content")),
                ai_analysis: Some(
                    String::from_str(
                        "This appears to be plain text content that can be directly processed.",
                    ),
                ),
            },
            ContentType::PureImage => ProcessedContent {
                content_type,
                extracted_text: None,
                ai_analysis: Some(
                    String::from_str(
                        "This appears to be an image without significant text content.",
                    ),
                ),
            },
            _ => ProcessedContent {
                content_type,
                extracted_text: None,
                ai_analysis: Some(String::from_str("Content type could not be determined.")),
            },
        }
    }

    /// Settles the processing of an image that the text recognizer was asked
    /// to read, with what the recognizer came back with.
    pub fn finish_ocr(outcome: Result<String, String>) -> (r: Result<ProcessedContent, String>)
        ensures
            processed_view(r) == ocr_answer(outcome),
    {
        match outcome {
            Ok(text) => {
                let mut said = String::from_str("OCR extracted text: ");
                said.append(text.as_str());
                Ok(
                    ProcessedContent {
                        content_type: ContentType::ImageWithText,
                        extracted_text: Some(text),
                        ai_analysis: Some(said),
                    },
                )
            },
            Err(reason) => Err(reason),
        }
    }

    /// Works on a finished selection. The image is classed; where it is
    /// taken to hold writing, `ocr` is called once on it and what it read is
    /// handed out, or its failure; where it is taken for a picture, `ocr` is
    /// not called.
    pub fn process_selection<F>(result: &SelectionResult, ocr: F) -> (r: Result<
        ProcessedContent,
        String,
    >) where F: FnOnce(&String) -> Result<String, String>
        requires
            has_text_patterns(result.image_data@) ==> call_requires(ocr, (&result.image_data,)),
        ensures
            !has_text_patterns(result.image_data@) ==> processed_view(r) == Ok::<
                ProcessedView,
                String,
            >(processed(ContentType::PureImage, Seq::<char>::empty())),
            has_text_patterns(result.image_data@) ==> exists|outcome: Result<String, String>|
                #[trigger] call_ensures(ocr, (&result.image_data,), outcome) && processed_view(r)
                    == ocr_answer(outcome),
    {
        let analysis = Self::analyze_content(result.image_data.as_str());
        match analysis.content_type {
            ContentType::ImageWithText => {
                let outcome = ocr(&result.image_data);
                Self::finish_ocr(outcome)
            },
            other => Ok(Self::describe(other)),
        }
    }
}

impl Default for InteractiveOverlay {
    /// An overlay on which no drag is under way.
    fn default() -> (overlay: Self)
        ensures
            overlay.drag_state() == (DragState {
                is_dragging: false,
                start_x: 0,
                start_y: 0,
                current_x: 0,
                current_y: 0,
            }),
    {
        Self::new()
    }
}

} // verus!
