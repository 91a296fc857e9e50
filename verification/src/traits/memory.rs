//! Entries of the memory store, as the context builder reads them.

use crate::text::str_eq;
use vstd::prelude::*;
use vstd::string::*;

verus! {

/// The kind of a memory entry.
#[derive(Debug)]
pub enum MemoryCategory {
    Core,
    Daily,
    Custom(String),
}

/// A `MemoryCategory` as plain values.
pub enum MemoryCategoryView {
    Core,
    Daily,
    Custom(Seq<char>),
}

impl View for MemoryCategory {
    type V = MemoryCategoryView;

    open spec fn view(&self) -> MemoryCategoryView {
        match self {
            MemoryCategory::Core => MemoryCategoryView::Core,
            MemoryCategory::Daily => MemoryCategoryView::Daily,
            MemoryCategory::Custom(name) => MemoryCategoryView::Custom(name@),
        }
    }
}

impl DeepView for MemoryCategory {
    type V = MemoryCategoryView;

    open spec fn deep_view(&self) -> MemoryCategoryView {
        self@
    }
}

impl Clone for MemoryCategory {
    fn clone(&self) -> (r: Self)
        ensures
            r == *self,
    {
        match self {
            MemoryCategory::Core => MemoryCategory::Core,
            MemoryCategory::Daily => MemoryCategory::Daily,
            MemoryCategory::Custom(name) => MemoryCategory::Custom(name.clone()),
        }
    }
}

impl MemoryCategoryView {
    /// The label under which a category is written: `core`, `daily`, or the
    /// custom name itself.
    pub open spec fn label(self) -> Seq<char> {
        match self {
            MemoryCategoryView::Core => "core"@,
            MemoryCategoryView::Daily => "daily"@,
            MemoryCategoryView::Custom(name) => name,
        }
    }

    /// The category that a label names: `core` and `daily` name the two
    /// built-in ones, anything else a custom one.
    pub open spec fn from_label(label: Seq<char>) -> MemoryCategoryView {
        if label == "core"@ {
            MemoryCategoryView::Core
        } else if label == "daily"@ {
            MemoryCategoryView::Daily
        } else {
            MemoryCategoryView::Custom(label)
        }
    }
}

impl MemoryCategory {
    /// The label under which the category is written.
    pub fn label(&self) -> (r: String)
        ensures
            r@ == self@.label(),
    {
        match self {
            MemoryCategory::Core => "core".to_owned(),
            MemoryCategory::Daily => "daily".to_owned(),
            MemoryCategory::Custom(name) => name.clone(),
        }
    }

    /// The category that `label` names.
    pub fn from_label(label: &str) -> (r: Self)
        ensures
            r@ == MemoryCategoryView::from_label(label@),
    {
        if str_eq(label, "core") {
            MemoryCategory::Core
        } else if str_eq(label, "daily") {
            MemoryCategory::Daily
        } else {
            MemoryCategory::Custom(label.to_owned())
        }
    }
}

/// The bit pattern of the smallest relevance score that is kept: 0.4 as an
/// IEEE 754 double.
pub const MIN_RELEVANCE_BITS: u64 = 0x3FD9_9999_9999_999A;

/// The bit pattern of positive infinity as an IEEE 754 double.
pub const INFINITY_BITS: u64 = 0x7FF0_0000_0000_0000;

/// Whether the double with bit pattern `bits` is at least 0.4. Among the
/// doubles with a clear sign bit the order of the values is the order of the
/// patterns, up to infinity; beyond it lie the NaNs, which compare false.
pub open spec fn score_is_relevant(bits: u64) -> bool {
    MIN_RELEVANCE_BITS <= bits <= INFINITY_BITS
}

/// One entry of the memory store.
#[derive(Debug)]
pub struct MemoryEntry {
    pub id: String,
    pub key: String,
    pub content: String,
    pub category: MemoryCategory,
    pub timestamp: String,
    pub session_id: Option<String>,
    /// The relevance score, where the store gave one: the bit pattern of an
    /// IEEE 754 double.
    pub score: Option<u64>,
}

/// A `MemoryEntry` as plain values.
pub struct MemoryEntryView {
    pub id: Seq<char>,
    pub key: Seq<char>,
    pub content: Seq<char>,
    pub category: MemoryCategoryView,
    pub timestamp: Seq<char>,
    pub session_id: Option<Seq<char>>,
    pub score: Option<u64>,
}

impl View for MemoryEntry {
    type V = MemoryEntryView;

    open spec fn view(&self) -> MemoryEntryView {
        MemoryEntryView {
            id: self.id@,
            key: self.key@,
            content: self.content@,
            category: self.category@,
            timestamp: self.timestamp@,
            session_id: self.session_id.deep_view(),
            score: self.score,
        }
    }
}

impl DeepView for MemoryEntry {
    type V = MemoryEntryView;

    open spec fn deep_view(&self) -> MemoryEntryView {
        self@
    }
}

impl MemoryEntryView {
    /// Whether the entry is kept for the prompt: it has no score, or one of
    /// at least 0.4.
    pub open spec fn is_relevant(self) -> bool {
        match self.score {
            Some(bits) => score_is_relevant(bits),
            None => true,
        }
    }
}

impl MemoryEntry {
    /// Whether the entry is kept for the prompt.
    pub fn is_relevant(&self) -> (r: bool)
        ensures
            r == self@.is_relevant(),
    {
        match self.score {
            Some(bits) => MIN_RELEVANCE_BITS <= bits && bits <= INFINITY_BITS,
            None => true,
        }
    }
}

} // verus!
