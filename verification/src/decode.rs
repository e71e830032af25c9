//! The raw record decoder: the single place where optional fields are
//! replaced by their defaults and required fields are enforced. Rendering
//! never sees an absent field.

use crate::date::{parse_date, parse_date_spec};
use crate::model::{
    Config, ConfigRaw, ConfigView, EntryView, RawConfigView, RawEntryView, YasunoriEntry,
    YasunoriEntryRaw,
};
use vstd::prelude::*;

verus! {

/// Why a raw document was rejected: a required field was absent (or not of
/// the expected type), the id was outside the unsigned 32-bit range, or the
/// date text did not name a valid `YYYY-MM-DD` calendar date.
#[derive(Clone, Copy, Debug, PartialEq, Eq, Structural)]
pub enum DecodeError {
    MissingId,
    InvalidId,
    MissingTitle,
    MissingDate,
    MissingAt,
    MissingSenpan,
    MissingEntries,
    InvalidDate,
}

pub open spec fn default_opt(s: Option<Seq<char>>) -> Seq<char> {
    match s {
        Some(s) => s,
        None => Seq::empty(),
    }
}

/// What decoding one raw entry yields: the first absent required field is
/// reported, in field order; an out-of-range id and an unparseable date are
/// reported after those; otherwise the canonical entry, with the empty string
/// for each absent optional field.
pub open spec fn decode_entry_spec(r: RawEntryView) -> Result<EntryView, DecodeError> {
    if r.id is None {
        Err(DecodeError::MissingId)
    } else if r.id->0 < 0 || r.id->0 > 0xFFFF_FFFF {
        Err(DecodeError::InvalidId)
    } else if r.title is None {
        Err(DecodeError::MissingTitle)
    } else if r.date is None {
        Err(DecodeError::MissingDate)
    } else if r.at is None {
        Err(DecodeError::MissingAt)
    } else if r.senpan is None {
        Err(DecodeError::MissingSenpan)
    } else if parse_date_spec(r.date->0) is None {
        Err(DecodeError::InvalidDate)
    } else {
        Ok(
            EntryView {
                id: r.id->0 as u32,
                title: r.title->0,
                date: parse_date_spec(r.date->0)->0,
                content: default_opt(r.content),
                meta: default_opt(r.meta),
                at: r.at->0,
                senpan: r.senpan->0,
            },
        )
    }
}

/// Decodes one raw entry, substituting the empty string for absent optional
/// fields and rejecting an entry whose required fields are absent or whose
/// date is invalid — exactly as [`decode_entry_spec`] says.
pub fn decode_entry(raw: &YasunoriEntryRaw) -> (r: Result<YasunoriEntry, DecodeError>)
    ensures
        r is Ok <==> decode_entry_spec(raw@) is Ok,
        r matches Ok(e) ==> e@ == decode_entry_spec(raw@)->Ok_0 && e@.wf(),
        r matches Err(er) ==> er == decode_entry_spec(raw@)->Err_0,
{
    let id_raw = match &raw.id {
        Some(id) => *id,
        None => {
            return Err(DecodeError::MissingId);
        },
    };
    if id_raw < 0 || id_raw > 0xFFFF_FFFFi64 {
        return Err(DecodeError::InvalidId);
    }
    let id = id_raw as u32;
    let title = match &raw.title {
        Some(t) => t.clone(),
        None => {
            return Err(DecodeError::MissingTitle);
        },
    };
    let date_text = match &raw.date {
        Some(d) => d,
        None => {
            return Err(DecodeError::MissingDate);
        },
    };
    let at = match &raw.at {
        Some(a) => a.clone(),
        None => {
            return Err(DecodeError::MissingAt);
        },
    };
    let senpan = match &raw.senpan {
        Some(s) => s.clone(),
        None => {
            return Err(DecodeError::MissingSenpan);
        },
    };
    let date = match parse_date(date_text.as_str()) {
        Some(d) => d,
        None => {
            return Err(DecodeError::InvalidDate);
        },
    };
    let content = match &raw.content {
        Some(c) => c.clone(),
        None => String::new(),
    };
    let meta = match &raw.meta {
        Some(m) => m.clone(),
        None => String::new(),
    };
    Ok(YasunoriEntry { id, title, date, content, meta, at, senpan })
}

/// What decoding a sequence of raw entries yields: the canonical entries in
/// the same order, or the error of the first entry that fails.
pub open spec fn decode_entries_spec(s: Seq<RawEntryView>) -> Result<Seq<EntryView>, DecodeError>
    decreases s.len(),
{
    if s.len() == 0 {
        Ok(Seq::empty())
    } else {
        match decode_entries_spec(s.drop_last()) {
            Err(e) => Err(e),
            Ok(pre) => match decode_entry_spec(s.last()) {
                Err(e) => Err(e),
                Ok(v) => Ok(pre.push(v)),
            },
        }
    }
}

/// What decoding a raw document yields: a document without the entry array is
/// rejected; an absent header defaults to the empty string; the entries are
/// decoded in order.
pub open spec fn decode_config_spec(r: RawConfigView) -> Result<ConfigView, DecodeError> {
    match r.yasunori {
        None => Err(DecodeError::MissingEntries),
        Some(list) => match decode_entries_spec(list) {
            Err(e) => Err(e),
            Ok(es) => Ok(
                ConfigView { markdown_header: default_opt(r.markdown_header), yasunori: es },
            ),
        },
    }
}

/// A failing prefix decides the whole sequence: once some prefix of the raw
/// entries fails to decode, the full sequence fails with the same error.
proof fn lemma_decode_entries_prefix_err(s: Seq<RawEntryView>, j: int)
    requires
        0 <= j <= s.len(),
        decode_entries_spec(s.take(j)) is Err,
    ensures
        decode_entries_spec(s) == decode_entries_spec(s.take(j)),
    decreases s.len() - j,
{
    if j == s.len() {
        assert(s.take(j) =~= s);
    } else {
        assert(s.take(j + 1).drop_last() =~= s.take(j));
        lemma_decode_entries_prefix_err(s, j + 1);
    }
}

/// Decodes a raw document into the canonical model, exactly as
/// [`decode_config_spec`] says: every entry in order, defaults substituted,
/// the first failure reported.
pub fn decode_config(raw: &ConfigRaw) -> (r: Result<Config, DecodeError>)
    ensures
        r is Ok <==> decode_config_spec(raw@) is Ok,
        r matches Ok(c) ==> c@ == decode_config_spec(raw@)->Ok_0 && c@.wf(),
        r matches Err(er) ==> er == decode_config_spec(raw@)->Err_0,
{
    let list = match &raw.yasunori {
        Some(list) => list,
        None => {
            return Err(DecodeError::MissingEntries);
        },
    };
    let mut entries: Vec<YasunoriEntry> = Vec::new();
    let n = list.len();
    let ghost rviews = raw@.yasunori->0;
    proof {
        assert(rviews =~= list@.map_values(|e: YasunoriEntryRaw| e@));
        assert(rviews.take(0) =~= Seq::<RawEntryView>::empty());
        assert(entries@.map_values(|e: YasunoriEntry| e@) =~= Seq::<EntryView>::empty());
    }
    let mut i: usize = 0;
    while i < n
        invariant
            i <= n,
            n == list.len(),
            rviews == list@.map_values(|e: YasunoriEntryRaw| e@),
            raw@.yasunori == Some(rviews),
            decode_entries_spec(rviews.take(i as int)) == Ok::<Seq<EntryView>, DecodeError>(
                entries@.map_values(|e: YasunoriEntry| e@),
            ),
            forall|k: int| 0 <= k < entries@.len() ==> (#[trigger] entries@[k])@.wf(),
        decreases n - i,
    {
        let ghost prefix = rviews.take(i as int);
        proof {
            assert(rviews.take(i as int + 1).drop_last() =~= prefix);
            assert(rviews.take(i as int + 1).last() == rviews[i as int]);
            assert(rviews[i as int] == list@[i as int]@);
        }
        match decode_entry(&list[i]) {
            Ok(e) => {
                let ghost prev = entries@;
                entries.push(e);
                proof {
                    assert(entries@ =~= prev.push(e));
                    assert(entries@.map_values(|x: YasunoriEntry| x@) =~= prev.map_values(
                        |x: YasunoriEntry| x@,
                    ).push(e@));
                }
            },
            Err(er) => {
                proof {
                    assert(decode_entries_spec(rviews.take(i as int + 1)) == Err::<
                        Seq<EntryView>,
                        DecodeError,
                    >(er));
                    lemma_decode_entries_prefix_err(rviews, i as int + 1);
                }
                return Err(er);
            },
        }
        i += 1;
    }
    proof {
        assert(rviews.take(n as int) =~= rviews);
    }
    let markdown_header = match &raw.markdown_header {
        Some(h) => h.clone(),
        None => String::new(),
    };
    let cfg = Config { markdown_header, yasunori: entries };
    proof {
        assert(cfg@.yasunori =~= decode_config_spec(raw@)->Ok_0.yasunori);
        assert(cfg@.markdown_header =~= decode_config_spec(raw@)->Ok_0.markdown_header);
    }
    Ok(cfg)
}

/// Decode defaulting: a raw entry that decodes successfully while omitting an
/// optional field (`meta`, `content`, or the document header) yields the
/// empty string for that field in the canonical model.
pub proof fn lemma_decode_defaulting(r: RawEntryView)
    requires
        decode_entry_spec(r) is Ok,
    ensures
        r.meta is None ==> decode_entry_spec(r)->Ok_0.meta == Seq::<char>::empty(),
        r.content is None ==> decode_entry_spec(r)->Ok_0.content == Seq::<char>::empty(),
{
}

/// Missing required field: a raw entry that omits any required field is
/// rejected with a decode error, never silently defaulted.
pub proof fn lemma_missing_required_rejected(r: RawEntryView)
    ensures
        r.id is None ==> decode_entry_spec(r) is Err,
        r.title is None ==> decode_entry_spec(r) is Err,
        r.date is None ==> decode_entry_spec(r) is Err,
        r.at is None ==> decode_entry_spec(r) is Err,
        r.senpan is None ==> decode_entry_spec(r) is Err,
{
}

/// Order preservation through decoding: a raw sequence that decodes
/// successfully yields exactly one canonical entry per raw entry, in the same
/// order.
pub proof fn lemma_decode_preserves_order(s: Seq<RawEntryView>)
    requires
        decode_entries_spec(s) is Ok,
    ensures
        decode_entries_spec(s)->Ok_0.len() == s.len(),
        forall|i: int|
            0 <= i < s.len() ==> decode_entry_spec(s[i]) is Ok && decode_entries_spec(s)->Ok_0[i]
                == decode_entry_spec(#[trigger] s[i])->Ok_0,
    decreases s.len(),
{
    if s.len() > 0 {
        lemma_decode_preserves_order(s.drop_last());
        assert(forall|i: int| 0 <= i < s.len() - 1 ==> s.drop_last()[i] == #[trigger] s[i]);
    }
}

} // verus!
