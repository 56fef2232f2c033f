use framesense::geometry::CaptureBounds;
use framesense::overlay::interactive_overlay::ContentAnalysis;
use framesense::overlay::interactive_overlay::ContentType;
use framesense::overlay::interactive_overlay::DragState;
use framesense::overlay::interactive_overlay::InteractiveOverlay;
use framesense::overlay::interactive_overlay::ProcessedContent;
use framesense::overlay::interactive_overlay::TEXT_PATTERN_THRESHOLD;
use framesense::overlay::selection_overlay::SelectionResult;

fn selection(image_data: String) -> SelectionResult {
    SelectionResult {
        bounds: CaptureBounds { x: 0, y: 0, width: 100, height: 100 },
        image_data,
        cancelled: false,
    }
}

#[test]
fn default_drag_state_is_at_rest() {
    assert_eq!(
        DragState::default(),
        DragState { is_dragging: false, start_x: 0, start_y: 0, current_x: 0, current_y: 0 }
    );
    let _overlay = InteractiveOverlay::new();
}

#[test]
fn a_long_image_text_is_taken_to_hold_writing() {
    assert_eq!(TEXT_PATTERN_THRESHOLD, 1000);
    assert_eq!(
        InteractiveOverlay::analyze_content(&"a".repeat(1001)),
        ContentAnalysis {
            content_type: ContentType::ImageWithText,
            confidence_percent: 80,
            text_content: None,
            needs_ocr: true,
        }
    );
}

#[test]
fn a_short_image_text_is_taken_for_a_picture() {
    for n in [0usize, 1, 1000] {
        assert_eq!(
            InteractiveOverlay::analyze_content(&"a".repeat(n)),
            ContentAnalysis {
                content_type: ContentType::PureImage,
                confidence_percent: 90,
                text_content: None,
                needs_ocr: false,
            }
        );
    }
}

#[test]
fn the_length_of_image_text_is_counted_in_bytes() {
    // 501 two-byte characters are 1002 bytes
    let analysis = InteractiveOverlay::analyze_content(&"ä".repeat(501));
    assert_eq!(analysis.content_type, ContentType::ImageWithText);
    let analysis = InteractiveOverlay::analyze_content(&"ä".repeat(500));
    assert_eq!(analysis.content_type, ContentType::PureImage);
}

#[test]
fn a_picture_is_processed_without_the_recognizer() {
    let mut calls = 0;
    let r = InteractiveOverlay::process_selection(&selection("tiny".to_string()), |_| {
        calls += 1;
        Ok("never".to_string())
    });
    assert_eq!(
        r,
        Ok(ProcessedContent {
            content_type: ContentType::PureImage,
            extracted_text: None,
            ai_analysis: Some(
                "This appears to be an image without significant text content.".to_string()
            ),
        })
    );
    assert_eq!(calls, 0);
}

#[test]
fn an_image_with_text_is_read_by_the_recognizer() {
    let data = "a".repeat(2000);
    let mut seen = 0;
    let r = InteractiveOverlay::process_selection(&selection(data), |image| {
        seen = image.len();
        Ok("Hello".to_string())
    });
    assert_eq!(
        r,
        Ok(ProcessedContent {
            content_type: ContentType::ImageWithText,
            extracted_text: Some("Hello".to_string()),
            ai_analysis: Some("OCR extracted text: Hello".to_string()),
        })
    );
    assert_eq!(seen, 2000);
}

#[test]
fn a_failure_of_the_recognizer_is_surfaced() {
    let r = InteractiveOverlay::process_selection(&selection("a".repeat(2000)), |_| {
        Err("tesseract missing".to_string())
    });
    assert_eq!(r, Err("tesseract missing".to_string()));
}

#[test]
fn finish_ocr_settles_each_outcome() {
    assert_eq!(
        InteractiveOverlay::finish_ocr(Ok(String::new())),
        Ok(ProcessedContent {
            content_type: ContentType::ImageWithText,
            extracted_text: Some(String::new()),
            ai_analysis: Some("OCR extracted text: ".to_string()),
        })
    );
    assert_eq!(InteractiveOverlay::finish_ocr(Err("e".to_string())), Err("e".to_string()));
}

#[test]
fn content_that_is_not_read_is_described_by_its_kind() {
    assert_eq!(
        InteractiveOverlay::describe(ContentType::PlainText),
        ProcessedContent {
            content_type: ContentType::PlainText,
            extracted_text: Some("Detected plain text content".to_string()),
            ai_analysis: Some(
                "This appears to be plain text content that can be directly processed.".to_string()
            ),
        }
    );
    assert_eq!(
        InteractiveOverlay::describe(ContentType::Unknown),
        ProcessedContent {
            content_type: ContentType::Unknown,
            extracted_text: None,
            ai_analysis: Some("Content type could not be determined.".to_string()),
        }
    );
    assert_eq!(
        InteractiveOverlay::describe(ContentType::PureImage).ai_analysis,
        Some("This appears to be an image without significant text content.".to_string())
    );
}
