//! The raw and canonical data models: the raw form is what the external
//! deserializer hands over (optional fields still optional, the date still
//! plain text); the canonical form has every field concrete and the date
//! validated. The decoder in `decode` is the only bridge between the two.

use crate::date::Date;
use vstd::prelude::*;

verus! {

/// One curated record in its canonical, fully defaulted form.
#[derive(Debug, PartialEq, Eq, Clone)]
pub struct YasunoriEntry {
    pub id: u32,
    pub title: String,
    pub date: Date,
    pub content: String,
    pub meta: String,
    pub at: String,
    pub senpan: String,
}

/// The mathematical model of a canonical entry.
pub ghost struct EntryView {
    pub id: u32,
    pub title: Seq<char>,
    pub date: Date,
    pub content: Seq<char>,
    pub meta: Seq<char>,
    pub at: Seq<char>,
    pub senpan: Seq<char>,
}

impl EntryView {
    pub open spec fn wf(self) -> bool {
        self.date.valid()
    }
}

impl View for YasunoriEntry {
    type V = EntryView;

    open spec fn view(&self) -> EntryView {
        EntryView {
            id: self.id,
            title: self.title@,
            date: self.date,
            content: self.content@,
            meta: self.meta@,
            at: self.at@,
            senpan: self.senpan@,
        }
    }
}

/// The whole document in canonical form: a header and the entries in the
/// order in which they were decoded.
#[derive(Debug, PartialEq, Eq, Clone)]
pub struct Config {
    pub markdown_header: String,
    pub yasunori: Vec<YasunoriEntry>,
}

/// The mathematical model of a canonical document.
pub ghost struct ConfigView {
    pub markdown_header: Seq<char>,
    pub yasunori: Seq<EntryView>,
}

impl ConfigView {
    pub open spec fn wf(self) -> bool {
        forall|i: int| 0 <= i < self.yasunori.len() ==> (#[trigger] self.yasunori[i]).wf()
    }
}

impl View for Config {
    type V = ConfigView;

    open spec fn view(&self) -> ConfigView {
        ConfigView {
            markdown_header: self.markdown_header@,
            yasunori: self.yasunori@.map_values(|e: YasunoriEntry| e@),
        }
    }
}

/// One record as handed over by the external deserializer: every field an
/// explicit option, the date still plain text, the id the raw parsed integer.
#[derive(Debug, PartialEq, Eq, Clone)]
pub struct YasunoriEntryRaw {
    pub id: Option<i64>,
    pub title: Option<String>,
    pub date: Option<String>,
    pub content: Option<String>,
    pub meta: Option<String>,
    pub at: Option<String>,
    pub senpan: Option<String>,
}

/// The mathematical model of a raw entry.
pub ghost struct RawEntryView {
    pub id: Option<i64>,
    pub title: Option<Seq<char>>,
    pub date: Option<Seq<char>>,
    pub content: Option<Seq<char>>,
    pub meta: Option<Seq<char>>,
    pub at: Option<Seq<char>>,
    pub senpan: Option<Seq<char>>,
}

pub open spec fn view_opt_string(s: Option<String>) -> Option<Seq<char>> {
    match s {
        Some(s) => Some(s@),
        None => None,
    }
}

impl View for YasunoriEntryRaw {
    type V = RawEntryView;

    open spec fn view(&self) -> RawEntryView {
        RawEntryView {
            id: self.id,
            title: view_opt_string(self.title),
            date: view_opt_string(self.date),
            content: view_opt_string(self.content),
            meta: view_opt_string(self.meta),
            at: view_opt_string(self.at),
            senpan: view_opt_string(self.senpan),
        }
    }
}

/// The whole document as handed over by the external deserializer. An absent
/// or differently typed entry array is `None`, so that its rejection is a
/// decision of the decoder.
#[derive(Debug, PartialEq, Eq, Clone)]
pub struct ConfigRaw {
    pub markdown_header: Option<String>,
    pub yasunori: Option<Vec<YasunoriEntryRaw>>,
}

/// The mathematical model of a raw document.
pub ghost struct RawConfigView {
    pub markdown_header: Option<Seq<char>>,
    pub yasunori: Option<Seq<RawEntryView>>,
}

impl View for ConfigRaw {
    type V = RawConfigView;

    open spec fn view(&self) -> RawConfigView {
        RawConfigView {
            markdown_header: view_opt_string(self.markdown_header),
            yasunori: match self.yasunori {
                Some(v) => Some(v@.map_values(|e: YasunoriEntryRaw| e@)),
                None => None,
            },
        }
    }
}

} // verus!
