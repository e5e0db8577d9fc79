//! A visual on the screen as plain data: its rectangle, its colours, and the
//! text it shows, with the rules on when text can be shown.

use crate::layout::Region;
use vstd::prelude::*;

verus! {

/// A colour by its red, green, blue and alpha parts.
#[derive(Clone, Copy, Debug, PartialEq, Eq, Structural)]
pub struct Color {
    pub r: u8,
    pub g: u8,
    pub b: u8,
    pub a: u8,
}

/// Why a visual could not be given its text.
#[derive(Clone, Copy, Debug, PartialEq, Eq, Structural)]
pub enum VisualError {
    /// A visual was to be built with text and without a colour for it.
    TextColorRequired,
    /// A visual was to be built with text and without the means to render it.
    TextureDataRequired,
    /// The visual has no text colour, and none came with the new text.
    TextColorMissing,
}

impl VisualError {
    /// The error in words.
    pub fn message(&self) -> (words: &'static str)
        ensures
            words@ == match *self {
                VisualError::TextColorRequired => "Text color is required when supplying text when building a VisualAsset"@,
                VisualError::TextureDataRequired => "TextureData needed to build VisualAsset with text"@,
                VisualError::TextColorMissing => "asset does not contain a text color. Supply one when calling update_texture"@,
            },
    {
        match self {
            VisualError::TextColorRequired => {
                "Text color is required when supplying text when building a VisualAsset"
            },
            VisualError::TextureDataRequired => "TextureData needed to build VisualAsset with text",
            VisualError::TextColorMissing => {
                "asset does not contain a text color. Supply one when calling update_texture"
            },
        }
    }
}

/// A rectangle with a background and, where it has any, a text and the
/// colour of the text.
#[derive(Debug, PartialEq, Eq)]
pub struct VisualAsset {
    pub rect: Region,
    pub background_color: Color,
    pub text: Option<String>,
    pub text_color: Option<Color>,
}

impl VisualAsset {
    /// A visual that shows text has a colour to show it in.
    pub open spec fn wf(self) -> bool {
        self.text.is_some() ==> self.text_color.is_some()
    }

    /// What `build` gives: a visual without text whatever else is given; with
    /// text, an error unless a colour is given and the means to render are at
    /// hand.
    pub open spec fn built(
        rect: Region,
        background_color: Color,
        text: Option<String>,
        text_color: Option<Color>,
        has_data: bool,
    ) -> Result<VisualAsset, VisualError> {
        if text.is_none() {
            Ok(VisualAsset { rect, background_color, text: None, text_color })
        } else if text_color.is_none() {
            Err(VisualError::TextColorRequired)
        } else if !has_data {
            Err(VisualError::TextureDataRequired)
        } else {
            Ok(VisualAsset { rect, background_color, text, text_color })
        }
    }

    /// The colour that new text is shown in: the visual's own where it has
    /// one, else the one that comes with the text.
    pub open spec fn color_for_update(self, text_color: Option<Color>) -> Option<Color> {
        if self.text_color.is_some() {
            self.text_color
        } else {
            text_color
        }
    }

    /// Builds a visual. `has_data` says whether the means to render text are
    /// at hand.
    pub fn build(
        rect: Region,
        background_color: Color,
        text: Option<String>,
        text_color: Option<Color>,
        has_data: bool,
    ) -> (made: Result<VisualAsset, VisualError>)
        ensures
            made == VisualAsset::built(rect, background_color, text, text_color, has_data),
            made matches Ok(asset) ==> asset.wf(),
    {
        match (text, text_color) {
            (None, _) => Ok(VisualAsset { rect, background_color, text: None, text_color }),
            (Some(_), None) => Err(VisualError::TextColorRequired),
            (Some(value), Some(color)) => {
                if has_data {
                    Ok(
                        VisualAsset {
                            rect,
                            background_color,
                            text: Some(value),
                            text_color: Some(color),
                        },
                    )
                } else {
                    Err(VisualError::TextureDataRequired)
                }
            },
        }
    }

    /// Gives the visual a new text. A visual without a text colour takes the
    /// one given; without either, the visual stays as it is and the call
    /// fails.
    pub fn update_texture(&mut self, text: String, text_color: Option<Color>) -> (done: Result<
        (),
        VisualError,
    >)
        ensures
            old(self).color_for_update(text_color).is_none() ==> done == Err::<(), VisualError>(
                VisualError::TextColorMissing,
            ) && *final(self) == *old(self),
            old(self).color_for_update(text_color).is_some() ==> done.is_ok() && *final(self) == (
            VisualAsset {
                rect: old(self).rect,
                background_color: old(self).background_color,
                text: Some(text),
                text_color: old(self).color_for_update(text_color),
            }),
            done.is_ok() ==> final(self).wf(),
    {
        if self.text_color.is_none() {
            match text_color {
                None => {
                    return Err(VisualError::TextColorMissing);
                },
                Some(color) => {
                    self.text_color = Some(color);
                },
            }
        }
        self.text = Some(text);
        Ok(())
    }
}

} // verus!
