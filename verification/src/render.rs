//! Rendering the canonical model into markdown: the summary table, the
//! per-entry sections, and the assembled document. Every function here is a
//! pure transform of the model; no sorting or escaping is performed, so the
//! output lists the entries exactly in decoded order.

use crate::date::{date_chars, serialize_naive_date};
use crate::model::{Config, ConfigView, EntryView, YasunoriEntry};
use crate::slug::{make_anchor_link, slug_chars};
use crate::strutil::{dec_digits, u32_to_string};
use vstd::prelude::*;
use vstd::string::StringExecFns;

verus! {

/// The fixed table header block: column names and the separator row.
pub open spec fn table_header_chars() -> Seq<char> {
    "\n| id | date           | senpan            | place                  | title                                                        |\n|----|----------------|-------------------|------------------------|--------------------------------------------------------------|\n"@
}

/// One table row: the id cell is a markdown link to the entry's anchor slug,
/// the date cell uses the canonical date text, and the remaining cells carry
/// the raw field values, unescaped and unpadded.
pub open spec fn row_chars(e: EntryView) -> Seq<char> {
    "| ["@ + dec_digits(e.id as int) + "]("@ + slug_chars(e.title, e.date) + ") | "@ + date_chars(
        e.date,
    ) + " | "@ + e.senpan + " | "@ + e.at + " | "@ + e.title + " |\n"@
}

/// All table rows, one per entry, in entry order.
pub open spec fn rows_chars(entries: Seq<EntryView>) -> Seq<char>
    decreases entries.len(),
{
    if entries.len() == 0 {
        Seq::empty()
    } else {
        rows_chars(entries.drop_last()) + row_chars(entries.last())
    }
}

/// The whole summary table: the fixed header block followed by the rows.
pub open spec fn table_chars(c: ConfigView) -> Seq<char> {
    table_header_chars() + rows_chars(c.yasunori)
}

/// One per-entry section: a level-3 heading with title and date, the venue
/// and attribution line, the content body fenced as a markdown code block,
/// and the trailing annotation. `content` and `meta` are emitted exactly as
/// stored, embedded newlines included.
pub open spec fn section_chars(e: EntryView) -> Seq<char> {
    "\n### "@ + e.title + " ("@ + date_chars(e.date) + ")\n\n"@ + e.at + " by "@ + e.senpan
        + "\n\n```markdown\n"@ + e.content + "```\n\n"@ + e.meta
}

/// All sections joined by a newline, in entry order.
pub open spec fn sections_chars(entries: Seq<EntryView>) -> Seq<char>
    decreases entries.len(),
{
    if entries.len() == 0 {
        Seq::empty()
    } else if entries.len() == 1 {
        section_chars(entries[0])
    } else {
        sections_chars(entries.drop_last()) + "\n"@ + section_chars(entries.last())
    }
}

/// The assembled document: header, table, a contents heading, the sections,
/// and a final newline.
pub open spec fn doc_chars(c: ConfigView) -> Seq<char> {
    c.markdown_header + table_chars(c) + "\n## Contents\n\n"@ + sections_chars(c.yasunori) + "\n"@
}

/// Renders the summary table, exactly as [`table_chars`] says: the fixed
/// header block, then one row per entry in input order.
pub fn make_table(cfg: &Config) -> (r: String)
    requires
        cfg@.wf(),
    ensures
        r@ == table_chars(cfg@),
{
    let mut s = String::from_str(
        "\n| id | date           | senpan            | place                  | title                                                        |\n|----|----------------|-------------------|------------------------|--------------------------------------------------------------|\n",
    );
    let ghost evs = cfg@.yasunori;
    proof {
        assert(evs.take(0) =~= Seq::<EntryView>::empty());
        assert(s@ =~= table_header_chars() + rows_chars(evs.take(0)));
    }
    let n = cfg.yasunori.len();
    let mut i: usize = 0;
    while i < n
        invariant
            i <= n,
            n == cfg.yasunori.len(),
            evs == cfg@.yasunori,
            cfg@.wf(),
            s@ == table_header_chars() + rows_chars(evs.take(i as int)),
        decreases n - i,
    {
        let e = &cfg.yasunori[i];
        proof {
            assert(evs[i as int] == cfg.yasunori@[i as int]@);
            assert(evs[i as int].wf());
            assert(evs.take(i as int + 1).drop_last() =~= evs.take(i as int));
            assert(evs.take(i as int + 1).last() == evs[i as int]);
        }
        s.append("| [");
        let id_s = u32_to_string(e.id);
        s.append(id_s.as_str());
        s.append("](");
        let link = make_anchor_link(e.title.as_str(), &e.date);
        s.append(link.as_str());
        s.append(") | ");
        let ds = serialize_naive_date(&e.date);
        s.append(ds.as_str());
        s.append(" | ");
        s.append(e.senpan.as_str());
        s.append(" | ");
        s.append(e.at.as_str());
        s.append(" | ");
        s.append(e.title.as_str());
        s.append(" |\n");
        proof {
            assert(s@ =~= table_header_chars() + rows_chars(evs.take(i as int + 1)));
        }
        i += 1;
    }
    proof {
        assert(evs.take(n as int) =~= evs);
    }
    s
}

/// Renders one per-entry section, exactly as [`section_chars`] says.
pub fn make_markdown_content(entry: &YasunoriEntry) -> (r: String)
    requires
        entry@.wf(),
    ensures
        r@ == section_chars(entry@),
{
    let mut s = String::from_str("\n### ");
    s.append(entry.title.as_str());
    s.append(" (");
    let ds = serialize_naive_date(&entry.date);
    s.append(ds.as_str());
    s.append(")\n\n");
    s.append(entry.at.as_str());
    s.append(" by ");
    s.append(entry.senpan.as_str());
    s.append("\n\n```markdown\n");
    s.append(entry.content.as_str());
    s.append("```\n\n");
    s.append(entry.meta.as_str());
    proof {
        assert(s@ =~= section_chars(entry@));
    }
    s
}

/// Renders every section in input order, joined by a newline, exactly as
/// [`sections_chars`] says.
pub fn make_markdown_contents(cfg: &Config) -> (r: String)
    requires
        cfg@.wf(),
    ensures
        r@ == sections_chars(cfg@.yasunori),
{
    let mut s = String::new();
    let ghost evs = cfg@.yasunori;
    proof {
        assert(evs.take(0) =~= Seq::<EntryView>::empty());
        assert(s@ =~= sections_chars(evs.take(0)));
    }
    let n = cfg.yasunori.len();
    let mut i: usize = 0;
    while i < n
        invariant
            i <= n,
            n == cfg.yasunori.len(),
            evs == cfg@.yasunori,
            cfg@.wf(),
            s@ == sections_chars(evs.take(i as int)),
        decreases n - i,
    {
        let e = &cfg.yasunori[i];
        proof {
            assert(evs[i as int] == cfg.yasunori@[i as int]@);
            assert(evs[i as int].wf());
            assert(evs.take(i as int + 1).drop_last() =~= evs.take(i as int));
            assert(evs.take(i as int + 1).last() == evs[i as int]);
            assert(evs.take(i as int + 1)[0] == evs[0]);
        }
        if i > 0 {
            s.append("\n");
        }
        let sec = make_markdown_content(e);
        s.append(sec.as_str());
        proof {
            assert(s@ =~= sections_chars(evs.take(i as int + 1)));
        }
        i += 1;
    }
    proof {
        assert(evs.take(n as int) =~= evs);
    }
    s
}

/// Assembles the final document, exactly as [`doc_chars`] says. The output is
/// a function of the canonical model alone, so rendering the same model twice
/// yields byte-identical text.
pub fn make_content_all(cfg: &Config) -> (r: String)
    requires
        cfg@.wf(),
    ensures
        r@ == doc_chars(cfg@),
{
    let mut s = String::new();
    s.append(cfg.markdown_header.as_str());
    let t = make_table(cfg);
    s.append(t.as_str());
    s.append("\n## Contents\n\n");
    let c = make_markdown_contents(cfg);
    s.append(c.as_str());
    s.append("\n");
    proof {
        assert(s@ =~= doc_chars(cfg@));
    }
    s
}

/// Order preservation in the table: the rows rendered for two entry sequences
/// laid end to end are the rows of the first followed by the rows of the
/// second — rendering never reorders entries.
pub proof fn lemma_rows_append(a: Seq<EntryView>, b: Seq<EntryView>)
    ensures
        rows_chars(a + b) == rows_chars(a) + rows_chars(b),
    decreases b.len(),
{
    if b.len() == 0 {
        assert(a + b =~= a);
        assert(rows_chars(a) + rows_chars(b) =~= rows_chars(a));
    } else {
        assert((a + b).drop_last() =~= a + b.drop_last());
        assert((a + b).last() == b.last());
        lemma_rows_append(a, b.drop_last());
        assert(rows_chars(a + b) =~= rows_chars(a) + rows_chars(b));
    }
}

/// Order preservation in the sections: the sections rendered for two
/// non-empty entry sequences laid end to end are the sections of the first,
/// the separator, then the sections of the second.
pub proof fn lemma_sections_append(a: Seq<EntryView>, b: Seq<EntryView>)
    requires
        a.len() > 0,
        b.len() > 0,
    ensures
        sections_chars(a + b) == sections_chars(a) + "\n"@ + sections_chars(b),
    decreases b.len(),
{
    if b.len() == 1 {
        assert((a + b).drop_last() =~= a);
        assert((a + b).last() == b[0]);
        assert(sections_chars(b) == section_chars(b[0]));
        assert(sections_chars(a + b) =~= sections_chars(a) + "\n"@ + sections_chars(b));
    } else {
        assert((a + b).drop_last() =~= a + b.drop_last());
        assert((a + b).last() == b.last());
        assert(b.drop_last().len() > 0);
        lemma_sections_append(a, b.drop_last());
        assert(sections_chars(a + b) =~= sections_chars(a) + "\n"@ + sections_chars(b));
    }
}

} // verus!
