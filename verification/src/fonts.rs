//! The configuration from which the fonts of a session are built.

use crate::paint::TextStyle;
use vstd::prelude::*;

verus! {

/// The kind of typeface.
#[derive(Clone, Copy, Debug, PartialEq, Eq, Structural)]
pub enum FontFamily {
    Monospace,
    VariableWidth,
}

/// The typeface and the size, in points, of one font role.
#[derive(Clone, Copy, Debug, PartialEq, Eq, Structural)]
pub struct FontSpec {
    pub family: FontFamily,
    pub size: u32,
}

/// The fonts of all roles, and the scale for which they are rasterised.
#[derive(Clone, Copy, Debug, PartialEq, Eq, Structural)]
pub struct FontDefinitions {
    /// Device pixels per point, in thousandths.
    pub pixels_per_point: u32,
    pub body: FontSpec,
    pub button: FontSpec,
    pub heading: FontSpec,
    pub monospace: FontSpec,
}

impl FontDefinitions {
    /// The configuration of a new session.
    pub open spec fn spec_default() -> FontDefinitions {
        FontDefinitions {
            pixels_per_point: 1000,
            body: FontSpec { family: FontFamily::VariableWidth, size: 16 },
            button: FontSpec { family: FontFamily::VariableWidth, size: 16 },
            heading: FontSpec { family: FontFamily::VariableWidth, size: 24 },
            monospace: FontSpec { family: FontFamily::Monospace, size: 13 },
        }
    }

    /// The font of a role.
    pub open spec fn spec_get(self, text_style: TextStyle) -> FontSpec {
        match text_style {
            TextStyle::Body => self.body,
            TextStyle::Button => self.button,
            TextStyle::Heading => self.heading,
            TextStyle::Monospace => self.monospace,
        }
    }

    #[verifier::when_used_as_spec(spec_get)]
    pub fn get(self, text_style: TextStyle) -> (font: FontSpec)
        ensures
            font == self.spec_get(text_style),
    {
        match text_style {
            TextStyle::Body => self.body,
            TextStyle::Button => self.button,
            TextStyle::Heading => self.heading,
            TextStyle::Monospace => self.monospace,
        }
    }

    /// This configuration for another scale.
    pub open spec fn spec_with_scale(self, pixels_per_point: u32) -> FontDefinitions {
        FontDefinitions { pixels_per_point, ..self }
    }

    /// Whether fonts built from `loaded` no longer fit this configuration:
    /// always before the first fonts are built, and after that whenever the
    /// configuration or the scale has changed.
    pub open spec fn spec_needs_rebuild(self, loaded: Option<FontDefinitions>) -> bool {
        match loaded {
            Some(current) => current != self,
            None => true,
        }
    }

    #[verifier::when_used_as_spec(spec_needs_rebuild)]
    pub fn needs_rebuild(self, loaded: Option<FontDefinitions>) -> (rebuild: bool)
        ensures
            rebuild == self.spec_needs_rebuild(loaded),
    {
        match loaded {
            Some(current) => current != self,
            None => true,
        }
    }
}

impl Default for FontDefinitions {
    fn default() -> (definitions: FontDefinitions)
        ensures
            definitions == FontDefinitions::spec_default(),
    {
        FontDefinitions {
            pixels_per_point: 1000,
            body: FontSpec { family: FontFamily::VariableWidth, size: 16 },
            button: FontSpec { family: FontFamily::VariableWidth, size: 16 },
            heading: FontSpec { family: FontFamily::VariableWidth, size: 24 },
            monospace: FontSpec { family: FontFamily::Monospace, size: 13 },
        }
    }
}

} // verus!
