//! The records the service returns.

use vstd::prelude::*;
use vstd::string::*;

use crate::decimal::{decimal, decimal_text};

verus! {

/// A series as the service knows it.
#[derive(Clone, PartialEq, Eq)]
pub struct SeriesInfo {
    pub title: String,
    pub id: u64,
    pub tags: Option<Vec<u64>>,
}

/// An episode of a series. `episode_file_id` is absent while no file is
/// attached; `monitored` says whether the service acquires the episode on its
/// own.
#[derive(Clone, Debug, PartialEq, Eq)]
pub struct EpisodeInfo {
    pub id: u64,
    pub series_id: u64,
    pub episode_file_id: Option<u64>,
    pub title: String,
    pub season_number: u32,
    pub episode_number: u32,
    pub monitored: bool,
}

/// A label that can be attached to series.
#[derive(Clone, Debug, PartialEq, Eq)]
pub struct Tag {
    pub label: String,
    pub id: u64,
}

/// A series as plain values.
pub struct SeriesInfoView {
    pub title: Seq<char>,
    pub id: u64,
    pub tags: Option<Seq<u64>>,
}

/// An episode as plain values.
pub struct EpisodeInfoView {
    pub id: u64,
    pub series_id: u64,
    pub episode_file_id: Option<u64>,
    pub title: Seq<char>,
    pub season_number: u32,
    pub episode_number: u32,
    pub monitored: bool,
}

/// A tag as plain values.
pub struct TagView {
    pub label: Seq<char>,
    pub id: u64,
}

impl View for SeriesInfo {
    type V = SeriesInfoView;

    open spec fn view(&self) -> SeriesInfoView {
        SeriesInfoView {
            title: self.title@,
            id: self.id,
            tags: match self.tags {
                Some(tags) => Some(tags@),
                None => None,
            },
        }
    }
}

impl View for EpisodeInfo {
    type V = EpisodeInfoView;

    open spec fn view(&self) -> EpisodeInfoView {
        EpisodeInfoView {
            id: self.id,
            series_id: self.series_id,
            episode_file_id: self.episode_file_id,
            title: self.title@,
            season_number: self.season_number,
            episode_number: self.episode_number,
            monitored: self.monitored,
        }
    }
}

impl View for Tag {
    type V = TagView;

    open spec fn view(&self) -> TagView {
        TagView { label: self.label@, id: self.id }
    }
}

/// The episode with automatic acquisition switched off and nothing else
/// touched.
pub open spec fn unmonitored(episode: EpisodeInfoView) -> EpisodeInfoView {
    EpisodeInfoView { monitored: false, ..episode }
}

/// The short form of a series: its title, then its identifier in
/// parentheses.
pub open spec fn label(title: Seq<char>, id: u64) -> Seq<char> {
    title + seq!['('] + decimal(id as nat) + seq![')']
}

/// Renders the short form of a series.
pub fn series_label(title: &str, id: u64) -> (text: String)
    ensures
        text@ == label(title@, id),
{
    proof {
        reveal_strlit("(");
        reveal_strlit(")");
    }
    let mut text = String::from_str(title);
    text.append("(");
    text.append(decimal_text(id).as_str());
    text.append(")");
    assert("("@ =~= seq!['('] && ")"@ =~= seq![')']);
    text
}

impl SeriesInfo {
    /// The short form used in diagnostics, in place of a field-by-field dump.
    pub fn debug_text(&self) -> (text: String)
        ensures
            text@ == label(self@.title, self@.id),
    {
        series_label(self.title.as_str(), self.id)
    }
}

impl EpisodeInfo {
    /// Switches automatic acquisition off.
    pub fn unmonitor(self) -> (episode: EpisodeInfo)
        ensures
            episode@ == unmonitored(self@),
    {
        let mut episode = self;
        episode.monitored = false;
        episode
    }
}

} // verus!
