//! The streaming platforms the vendor serves.

use vstd::prelude::*;

verus! {

/// A platform, named in request paths by its lower-case slug.
#[derive(Debug, Clone, Copy, PartialEq, Eq, Structural)]
pub enum Platform {
    Twitch,
    YouTube,
    GoodGame,
    Trovo,
    VkPlay,
    Kick,
}

impl Platform {
    /// The path slug of the platform.
    pub open spec fn spec_slug(&self) -> Seq<char> {
        match self {
            Platform::Twitch => "twitch"@,
            Platform::YouTube => "youtube"@,
            Platform::GoodGame => "goodgame"@,
            Platform::Trovo => "trovo"@,
            Platform::VkPlay => "vkplay"@,
            Platform::Kick => "kick"@,
        }
    }

    /// The slug used for this platform in request paths.
    pub fn as_str(&self) -> (r: &'static str)
        ensures
            r@ == self.spec_slug(),
    {
        match self {
            Platform::Twitch => "twitch",
            Platform::YouTube => "youtube",
            Platform::GoodGame => "goodgame",
            Platform::Trovo => "trovo",
            Platform::VkPlay => "vkplay",
            Platform::Kick => "kick",
        }
    }
}

} // verus!
