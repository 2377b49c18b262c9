use vstd::prelude::*;

verus! {

/// One fetched content item: a story or comment as returned by the remote
/// listing service. Constructed once from a successful decode of a remote
/// response and never mutated afterwards.
#[derive(Debug)]
pub struct Item {
    pub id: u32,
    pub deleted: Option<bool>,
    pub type_: String,
    pub by: String,
    pub time: u32,
    pub text: Option<String>,
    pub dead: Option<bool>,
    pub parent: Option<u32>,
    pub title: String,
    pub score: i32,
    pub url: Option<String>,
}

impl Item {
    pub fn id(&self) -> (r: &u32)
        ensures
            *r == self.id,
    {
        &self.id
    }

    pub fn by(&self) -> (r: &String)
        ensures
            r == &self.by,
    {
        &self.by
    }

    pub fn time(&self) -> (r: &u32)
        ensures
            *r == self.time,
    {
        &self.time
    }

    pub fn title(&self) -> (r: &String)
        ensures
            r == &self.title,
    {
        &self.title
    }

    pub fn score(&self) -> (r: &i32)
        ensures
            *r == self.score,
    {
        &self.score
    }

    pub fn text(&self) -> (r: &Option<String>)
        ensures
            r == &self.text,
    {
        &self.text
    }

    pub fn url(&self) -> (r: &Option<String>)
        ensures
            r == &self.url,
    {
        &self.url
    }

    pub fn parent(&self) -> (r: &Option<u32>)
        ensures
            r == &self.parent,
    {
        &self.parent
    }

    /// The text to display for this item: its body when it has one, its
    /// external link otherwise. An item with neither yields `None`, and the
    /// caller renders a placeholder.
    pub fn content_text(&self) -> (r: Option<&String>)
        ensures
            match self.text {
                Some(t) => r matches Some(s) && *s == t,
                None => match self.url {
                    Some(u) => r matches Some(s) && *s == u,
                    None => r is None,
                },
            },
    {
        match (&self.text, &self.url) {
            (Some(t), _) => Some(t),
            (None, Some(u)) => Some(u),
            (None, None) => None,
        }
    }
}

/// The kind of feed to list: the three rankings offered by the remote API.
#[derive(Debug, Clone, Copy, PartialEq, Eq, Structural)]
pub enum StoryKind {
    Top,
    Best,
    New,
}

/// All feed kinds, in the fixed order used to seed the feed-kind selector.
pub fn story_kinds() -> (r: Vec<StoryKind>)
    ensures
        r@ == seq![StoryKind::Top, StoryKind::Best, StoryKind::New],
{
    let mut v: Vec<StoryKind> = Vec::new();
    v.push(StoryKind::Top);
    v.push(StoryKind::Best);
    v.push(StoryKind::New);
    proof {
        assert(v@ =~= seq![StoryKind::Top, StoryKind::Best, StoryKind::New]);
    }
    v
}

/// Why a single fetch did not produce an item.
#[derive(Debug, Clone, Copy, PartialEq, Eq, Structural)]
pub enum FetchError {
    /// The connection or transfer failed, or the server answered with an
    /// error status.
    Transport,
    /// The payload could not be decoded into the expected shape.
    Decode,
    /// The concurrent task running the fetch ended abnormally.
    TaskFailure,
}

impl FetchError {
    /// A short description, for diagnostics.
    pub fn describe(&self) -> (r: &'static str)
        ensures
            *self == FetchError::Transport ==> r@ == "transport failure"@,
            *self == FetchError::Decode ==> r@ == "malformed payload"@,
            *self == FetchError::TaskFailure ==> r@ == "fetch task failed"@,
    {
        match self {
            FetchError::Transport => "transport failure",
            FetchError::Decode => "malformed payload",
            FetchError::TaskFailure => "fetch task failed",
        }
    }
}

} // verus!
