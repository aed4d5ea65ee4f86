//! Notification channels (Android) and their builder.
use vstd::prelude::*;

use crate::models::{borrows_opt, opt_as_str};

verus! {

/// How strongly a channel interrupts the user.
#[derive(Debug, Clone, Copy, PartialEq, Eq, Structural)]
pub enum Importance {
    NoImportance,
    Min,
    Low,
    Default,
    High,
}

impl Default for Importance {
    fn default() -> (r: Self)
        ensures
            r == Importance::Default,
    {
        Importance::Default
    }
}

/// How much of a notification the lock screen shows.
#[derive(Debug, Clone, Copy, PartialEq, Eq, Structural)]
pub enum Visibility {
    Secret,
    Private,
    Public,
}

/// A notification channel.
#[derive(Debug)]
pub struct Channel {
    pub id: String,
    pub name: String,
    pub description: Option<String>,
    pub sound: Option<String>,
    pub lights: Option<bool>,
    pub light_color: Option<String>,
    pub vibration: Option<bool>,
    pub importance: Option<Importance>,
    pub visibility: Option<Visibility>,
}

/// The value of a [`Channel`].
pub struct ChannelView {
    pub id: Seq<char>,
    pub name: Seq<char>,
    pub description: Option<Seq<char>>,
    pub sound: Option<Seq<char>>,
    pub lights: Option<bool>,
    pub light_color: Option<Seq<char>>,
    pub vibration: Option<bool>,
    pub importance: Option<Importance>,
    pub visibility: Option<Visibility>,
}

impl View for Channel {
    type V = ChannelView;

    open spec fn view(&self) -> ChannelView {
        ChannelView {
            id: self.id@,
            name: self.name@,
            description: self.description.deep_view(),
            sound: self.sound.deep_view(),
            lights: self.lights,
            light_color: self.light_color.deep_view(),
            vibration: self.vibration,
            importance: self.importance,
            visibility: self.visibility,
        }
    }
}

/// The channel that `Channel::builder(id, name)` starts from: lights and
/// vibration explicitly off, everything else unset.
pub open spec fn initial_channel(id: Seq<char>, name: Seq<char>) -> ChannelView {
    ChannelView {
        id,
        name,
        description: None,
        sound: None,
        lights: Some(false),
        light_color: None,
        vibration: Some(false),
        importance: None,
        visibility: None,
    }
}

/// Builds a [`Channel`] one setting at a time.
#[derive(Debug)]
pub struct ChannelBuilder(Channel);

impl View for ChannelBuilder {
    type V = ChannelView;

    closed spec fn view(&self) -> ChannelView {
        self.0@
    }
}

impl Channel {
    pub fn builder(id: String, name: String) -> (r: ChannelBuilder)
        ensures
            r@ == initial_channel(id@, name@),
    {
        let b = ChannelBuilder(
            Channel {
                id,
                name,
                description: None,
                sound: None,
                lights: Some(false),
                light_color: None,
                vibration: Some(false),
                importance: None,
                visibility: None,
            },
        );
        proof {
            assert(b@ == b.0@);
        }
        b
    }

    pub fn id(&self) -> (r: &str)
        ensures
            r@ == self@.id,
    {
        self.id.as_str()
    }

    pub fn name(&self) -> (r: &str)
        ensures
            r@ == self@.name,
    {
        self.name.as_str()
    }

    pub fn description(&self) -> (r: Option<&str>)
        ensures
            borrows_opt(r, self.description),
    {
        opt_as_str(&self.description)
    }

    pub fn sound(&self) -> (r: Option<&str>)
        ensures
            borrows_opt(r, self.sound),
    {
        opt_as_str(&self.sound)
    }

    /// Whether the channel uses the notification light; off when unset.
    pub fn lights(&self) -> (r: bool)
        ensures
            r == (self.lights == Some(true)),
    {
        match self.lights {
            Some(b) => b,
            None => false,
        }
    }

    pub fn light_color(&self) -> (r: Option<&str>)
        ensures
            borrows_opt(r, self.light_color),
    {
        opt_as_str(&self.light_color)
    }

    /// Whether the channel vibrates; off when unset.
    pub fn vibration(&self) -> (r: bool)
        ensures
            r == (self.vibration == Some(true)),
    {
        match self.vibration {
            Some(b) => b,
            None => false,
        }
    }

    /// The channel's importance; `Default` when unset.
    pub fn importance(&self) -> (r: Importance)
        ensures
            r == match self.importance {
                Some(i) => i,
                None => Importance::Default,
            },
    {
        match self.importance {
            Some(i) => i,
            None => Importance::default(),
        }
    }

    pub fn visibility(&self) -> (r: Option<Visibility>)
        ensures
            r == self.visibility,
    {
        self.visibility
    }
}

impl ChannelBuilder {
    pub fn description(self, description: String) -> (r: Self)
        ensures
            r@ == (ChannelView { description: Some(description@), ..self@ }),
    {
        let mut c = self.0;
        c.description = Some(description);
        ChannelBuilder(c)
    }

    pub fn sound(self, sound: String) -> (r: Self)
        ensures
            r@ == (ChannelView { sound: Some(sound@), ..self@ }),
    {
        let mut c = self.0;
        c.sound = Some(sound);
        ChannelBuilder(c)
    }

    pub fn lights(self, lights: bool) -> (r: Self)
        ensures
            r@ == (ChannelView { lights: Some(lights), ..self@ }),
    {
        let mut c = self.0;
        c.lights = Some(lights);
        ChannelBuilder(c)
    }

    pub fn light_color(self, color: String) -> (r: Self)
        ensures
            r@ == (ChannelView { light_color: Some(color@), ..self@ }),
    {
        let mut c = self.0;
        c.light_color = Some(color);
        ChannelBuilder(c)
    }

    pub fn vibration(self, vibration: bool) -> (r: Self)
        ensures
            r@ == (ChannelView { vibration: Some(vibration), ..self@ }),
    {
        let mut c = self.0;
        c.vibration = Some(vibration);
        ChannelBuilder(c)
    }

    pub fn importance(self, importance: Importance) -> (r: Self)
        ensures
            r@ == (ChannelView { importance: Some(importance), ..self@ }),
    {
        let mut c = self.0;
        c.importance = Some(importance);
        ChannelBuilder(c)
    }

    pub fn visibility(self, visibility: Visibility) -> (r: Self)
        ensures
            r@ == (ChannelView { visibility: Some(visibility), ..self@ }),
    {
        let mut c = self.0;
        c.visibility = Some(visibility);
        ChannelBuilder(c)
    }

    pub fn build(self) -> (r: Channel)
        ensures
            r@ == self@,
    {
        self.0
    }
}

} // verus!
