use babysleep::layout::Region;
use babysleep::visual::{Color, VisualAsset, VisualError};

const BLACK: Color = Color { r: 0, g: 0, b: 0, a: 255 };
const WHITE: Color = Color { r: 255, g: 255, b: 255, a: 255 };
const RED: Color = Color { r: 255, g: 0, b: 0, a: 255 };

fn rect() -> Region {
    Region { x: 250, y: 200, w: 350, h: 150 }
}

#[test]
fn a_visual_without_text_needs_nothing_more() {
    assert_eq!(
        VisualAsset::build(rect(), BLACK, None, None, false),
        Ok(VisualAsset { rect: rect(), background_color: BLACK, text: None, text_color: None })
    );
    assert_eq!(
        VisualAsset::build(rect(), BLACK, None, Some(WHITE), false),
        Ok(VisualAsset { rect: rect(), background_color: BLACK, text: None, text_color: Some(WHITE) })
    );
    assert_eq!(
        VisualAsset::build(rect(), BLACK, None, Some(WHITE), true),
        Ok(VisualAsset { rect: rect(), background_color: BLACK, text: None, text_color: Some(WHITE) })
    );
}

#[test]
fn a_visual_with_text_needs_a_text_color() {
    assert_eq!(
        VisualAsset::build(rect(), BLACK, Some("Start".to_string()), None, true),
        Err(VisualError::TextColorRequired)
    );
    assert_eq!(
        VisualAsset::build(rect(), BLACK, Some("Start".to_string()), None, false),
        Err(VisualError::TextColorRequired)
    );
}

#[test]
fn a_visual_with_text_needs_the_means_to_render() {
    assert_eq!(
        VisualAsset::build(rect(), BLACK, Some("Start".to_string()), Some(RED), false),
        Err(VisualError::TextureDataRequired)
    );
}

#[test]
fn a_visual_with_text_and_color_is_built() {
    assert_eq!(
        VisualAsset::build(rect(), BLACK, Some("Start".to_string()), Some(RED), true),
        Ok(VisualAsset {
            rect: rect(),
            background_color: BLACK,
            text: Some("Start".to_string()),
            text_color: Some(RED),
        })
    );
}

#[test]
fn new_text_is_shown_in_the_color_the_visual_has() {
    let mut asset = VisualAsset::build(rect(), BLACK, None, Some(WHITE), false).unwrap();
    assert_eq!(asset.update_texture("00:00:05".to_string(), None), Ok(()));
    assert_eq!(asset.text, Some("00:00:05".to_string()));
    assert_eq!(asset.text_color, Some(WHITE));
    assert_eq!(asset.update_texture("00:00:06".to_string(), Some(RED)), Ok(()));
    assert_eq!(asset.text, Some("00:00:06".to_string()));
    assert_eq!(asset.text_color, Some(WHITE));
    assert_eq!(asset.rect, rect());
    assert_eq!(asset.background_color, BLACK);
}

#[test]
fn new_text_brings_its_color_to_a_visual_without_one() {
    let mut asset = VisualAsset::build(rect(), BLACK, None, None, false).unwrap();
    assert_eq!(asset.update_texture("Stop".to_string(), Some(RED)), Ok(()));
    assert_eq!(
        asset,
        VisualAsset {
            rect: rect(),
            background_color: BLACK,
            text: Some("Stop".to_string()),
            text_color: Some(RED),
        }
    );
}

#[test]
fn new_text_without_any_color_is_refused_and_changes_nothing() {
    let mut asset = VisualAsset::build(rect(), BLACK, None, None, true).unwrap();
    assert_eq!(asset.update_texture("Stop".to_string(), None), Err(VisualError::TextColorMissing));
    assert_eq!(
        asset,
        VisualAsset { rect: rect(), background_color: BLACK, text: None, text_color: None }
    );
}

#[test]
fn each_error_has_its_words() {
    assert_eq!(
        VisualError::TextColorRequired.message(),
        "Text color is required when supplying text when building a VisualAsset"
    );
    assert_eq!(
        VisualError::TextureDataRequired.message(),
        "TextureData needed to build VisualAsset with text"
    );
    assert_eq!(
        VisualError::TextColorMissing.message(),
        "asset does not contain a text color. Supply one when calling update_texture"
    );
}
