//! The studio's domain model: channels with their brand and style, projects and scripts.

use vstd::prelude::*;
use crate::base::{ChannelId, ProjectId, Timestamp};

verus! {

#[derive(Debug)]
pub struct BrandProfile {
    pub name: String,
    pub tagline: String,
    pub tone: String,
}

impl Clone for BrandProfile {
    fn clone(&self) -> (r: Self)
        ensures
            r == *self,
    {
        BrandProfile { name: self.name.clone(), tagline: self.tagline.clone(), tone: self.tone.clone() }
    }
}

#[derive(Debug)]
pub struct StyleProfile {
    pub art_style: String,
    pub color_palette: Vec<String>,
    pub camera_style: String,
    pub pacing: String,
}

/// `a` and `b` hold the same style: equal texts and the same palette colours in order.
pub open spec fn same_style(a: StyleProfile, b: StyleProfile) -> bool {
    &&& a.art_style == b.art_style
    &&& a.color_palette@ == b.color_palette@
    &&& a.camera_style == b.camera_style
    &&& a.pacing == b.pacing
}

impl Clone for StyleProfile {
    fn clone(&self) -> (r: Self)
        ensures
            same_style(r, *self),
    {
        let palette = self.color_palette.clone();
        proof {
            assert forall|i: int| 0 <= i < palette@.len() implies palette@[i] == self.color_palette@[i] by {
                assert(cloned::<String>(self.color_palette[i], palette[i]));
            }
            assert(palette@ =~= self.color_palette@);
        }
        StyleProfile {
            art_style: self.art_style.clone(),
            color_palette: palette,
            camera_style: self.camera_style.clone(),
            pacing: self.pacing.clone(),
        }
    }
}

/// A brand or channel.
#[derive(Debug)]
pub struct Channel {
    pub id: ChannelId,
    pub name: String,
    pub brand: BrandProfile,
    pub style: StyleProfile,
    pub created_at: Timestamp,
    pub updated_at: Timestamp,
}

/// `a` and `b` hold the same channel.
pub open spec fn same_channel(a: Channel, b: Channel) -> bool {
    &&& a.id == b.id
    &&& a.name == b.name
    &&& a.brand == b.brand
    &&& same_style(a.style, b.style)
    &&& a.created_at == b.created_at
    &&& a.updated_at == b.updated_at
}

impl Clone for Channel {
    fn clone(&self) -> (r: Self)
        ensures
            same_channel(r, *self),
    {
        Channel {
            id: self.id,
            name: self.name.clone(),
            brand: self.brand.clone(),
            style: self.style.clone(),
            created_at: self.created_at,
            updated_at: self.updated_at,
        }
    }
}

/// A project within a channel.
#[derive(Debug)]
pub struct Project {
    pub id: ProjectId,
    pub channel_id: ChannelId,
    pub name: String,
    pub description: String,
    pub created_at: Timestamp,
    pub updated_at: Timestamp,
}

impl Clone for Project {
    fn clone(&self) -> (r: Self)
        ensures
            r == *self,
    {
        Project {
            id: self.id,
            channel_id: self.channel_id,
            name: self.name.clone(),
            description: self.description.clone(),
            created_at: self.created_at,
            updated_at: self.updated_at,
        }
    }
}

#[derive(Debug, Clone)]
pub struct ScriptSection {
    pub id: String,
    pub title: String,
    pub narration: String,
}

/// A script of a project; `id` holds the bits of a UUID.
#[derive(Debug, Clone)]
pub struct Script {
    pub id: u128,
    pub project_id: ProjectId,
    pub title: String,
    pub hook: String,
    pub sections: Vec<ScriptSection>,
}

} // verus!
