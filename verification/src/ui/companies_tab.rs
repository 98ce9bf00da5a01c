//! The companies tab's in-memory list: every loaded company, the ones shown
//! for the current search, the lines of the list box and the status text.
use vstd::prelude::*;
use crate::tasks::CompanyRow;
use crate::text::{
    trim, trimmed, lowercase, lowercase_of, contains_text, has_infix, grouped_decimal,
    grouped_decimal_string,
};

verus! {

broadcast use vstd::seq_lib::group_filter_ensures;

/// What the companies tab holds.
#[derive(Debug)]
pub struct CompanyListState {
    /// Every company loaded from the database, in the order received.
    pub all_companies: Vec<CompanyRow>,
    /// The companies shown, in list order.
    pub company_rows: Vec<CompanyRow>,
    /// The text of each line of the list, in list order.
    pub lines: Vec<String>,
    /// The number of companies shown.
    pub total: u32,
    /// The number of companies shown.
    pub offset: u32,
    /// The status text under the list.
    pub status: String,
}

/// The status shown before the companies have arrived.
pub open spec fn loading_status() -> Seq<char> {
    "Loading..."@
}

/// The text of the list line for a company name.
pub open spec fn list_line(name: Seq<char>) -> Seq<char> {
    "  "@ + name
}

/// The lower-cased, trimmed search text that names are matched against.
pub open spec fn search_key(search: Seq<char>) -> Seq<char> {
    lowercase_of(trimmed(search))
}

/// Whether the lower-cased name of `row` contains `key`.
pub open spec fn row_matches(row: CompanyRow, key: Seq<char>) -> bool {
    has_infix(lowercase_of(row.name@), key)
}

/// The companies of `all` shown for `search`: all of them when the search
/// key is empty, otherwise those whose lower-cased name contains the key,
/// in their order.
pub open spec fn visible_rows(all: Seq<CompanyRow>, search: Seq<char>) -> Seq<CompanyRow> {
    let key = search_key(search);
    if key.len() == 0 {
        all
    } else {
        all.filter(|r: CompanyRow| row_matches(r, key))
    }
}

/// The status text after filtering: `Loaded N companies (M total in memory)`,
/// with the counts' digits grouped by three (`Loaded 1,234 companies`).
pub open spec fn filter_status(shown: nat, loaded: nat) -> Seq<char> {
    "Loaded "@ + grouped_decimal(shown) + " companies ("@ + grouped_decimal(loaded)
        + " total in memory)"@
}

/// The list lines show exactly `rows`, one line per company.
pub open spec fn lines_show(lines: Seq<String>, rows: Seq<CompanyRow>) -> bool {
    &&& lines.len() == rows.len()
    &&& forall|i: int| 0 <= i < rows.len() ==> #[trigger] lines[i]@ == list_line(rows[i].name@)
}

/// `s` shows the companies of its loaded list that match `search`, with the
/// counters and status text that go with them.
pub open spec fn shows_search(s: CompanyListState, search: Seq<char>) -> bool {
    let shown = visible_rows(s.all_companies@, search);
    &&& s.company_rows@ == shown
    &&& lines_show(s.lines@, shown)
    &&& s.total == shown.len() as u32
    &&& s.offset == shown.len() as u32
    &&& s.status@ == filter_status(shown.len(), s.all_companies@.len())
}

fn line_for(name: &String) -> (line: String)
    ensures
        line@ == list_line(name@),
{
    let mut line = String::from_str("  ");
    line.append(name.as_str());
    line
}

fn copy_rows(rows: &Vec<CompanyRow>) -> (r: Vec<CompanyRow>)
    ensures
        r@ == rows@,
{
    let mut out: Vec<CompanyRow> = Vec::new();
    let mut i: usize = 0;
    while i < rows.len()
        invariant
            i <= rows@.len(),
            out@ == rows@.take(i as int),
        decreases rows@.len() - i,
    {
        out.push(rows[i].clone());
        assert(rows@.take(i + 1) == rows@.take(i as int).push(rows@[i as int]));
        i = i + 1;
    }
    assert(rows@.take(rows@.len() as int) == rows@);
    out
}

impl CompanyListState {
    /// An empty list: nothing loaded, nothing shown, and the status
    /// `Loading...` until the companies arrive.
    pub fn new() -> (s: Self)
        ensures
            s.all_companies@.len() == 0,
            s.company_rows@.len() == 0,
            s.lines@.len() == 0,
            s.total == 0,
            s.offset == 0,
            s.status@ == loading_status(),
    {
        CompanyListState {
            all_companies: Vec::new(),
            company_rows: Vec::new(),
            lines: Vec::new(),
            total: 0,
            offset: 0,
            status: String::from_str("Loading..."),
        }
    }
}

/// Shows the loaded companies that match `search` (case-insensitive,
/// ignoring surrounding white space), without asking the database.
pub fn apply_in_memory_filter(state: &mut CompanyListState, search: &str)
    ensures
        final(state).all_companies == old(state).all_companies,
        shows_search(*final(state), search@),
        trimmed(search@).len() == 0 ==> final(state).company_rows@ == old(state).all_companies@,
{
    let trimmed_search = trim(search);
    let key = lowercase(trimmed_search.as_str());
    let ghost all = state.all_companies@;
    let ghost pred = |r: CompanyRow| row_matches(r, key@);
    let filtered: Vec<CompanyRow> = if key.as_str().is_empty() {
        copy_rows(&state.all_companies)
    } else {
        let mut out: Vec<CompanyRow> = Vec::new();
        let mut i: usize = 0;
        while i < state.all_companies.len()
            invariant
                all == state.all_companies@,
                i <= all.len(),
                key@ == search_key(search@),
                pred == (|r: CompanyRow| row_matches(r, key@)),
                out@ == all.take(i as int).filter(pred),
            decreases all.len() - i,
        {
            let row = &state.all_companies[i];
            let name_lower = lowercase(row.name.as_str());
            let hit = contains_text(name_lower.as_str(), key.as_str());
            proof {
                all.take(i as int).lemma_filter_push(all[i as int], pred);
                assert(all.take(i + 1) == all.take(i as int).push(all[i as int]));
            }
            if hit {
                out.push(row.clone());
            }
            i = i + 1;
        }
        assert(all.take(all.len() as int) == all);
        out
    };
    let mut lines: Vec<String> = Vec::new();
    let mut j: usize = 0;
    while j < filtered.len()
        invariant
            j <= filtered@.len(),
            lines@.len() == j,
            forall|k: int| 0 <= k < j ==> #[trigger] lines@[k]@ == list_line(filtered@[k].name@),
        decreases filtered@.len() - j,
    {
        lines.push(line_for(&filtered[j].name));
        j = j + 1;
    }
    let shown = filtered.len();
    let loaded = state.all_companies.len();
    let mut status = String::from_str("Loaded ");
    status.append(grouped_decimal_string(shown as u64).as_str());
    status.append(" companies (");
    status.append(grouped_decimal_string(loaded as u64).as_str());
    status.append(" total in memory)");
    state.company_rows = filtered;
    state.lines = lines;
    state.total = shown as u32;
    state.offset = shown as u32;
    state.status = status;
}

/// Replaces the loaded companies by `rows` and shows those that match
/// `search`.
pub fn handle_companies_result(state: &mut CompanyListState, rows: &Vec<CompanyRow>, search: &str)
    ensures
        final(state).all_companies@ == rows@,
        shows_search(*final(state), search@),
{
    state.all_companies = copy_rows(rows);
    apply_in_memory_filter(state, search);
}

/// The lines kept when rows are shown: all of them when appending, none
/// otherwise.
pub open spec fn kept_lines(lines: Seq<String>, append: bool) -> Seq<String> {
    if append {
        lines
    } else {
        Seq::empty()
    }
}

/// Shows `rows` in the list, after the companies already shown when
/// `append` holds, in place of them otherwise. The loaded list, counters and
/// status are left as they are.
pub fn populate_companies(state: &mut CompanyListState, rows: &Vec<CompanyRow>, append: bool)
    ensures
        final(state).all_companies == old(state).all_companies,
        final(state).total == old(state).total,
        final(state).offset == old(state).offset,
        final(state).status == old(state).status,
        final(state).company_rows@ == (if append { old(state).company_rows@ } else { Seq::empty() })
            + rows@,
        lines_show(old(state).lines@, old(state).company_rows@) ==> lines_show(
            final(state).lines@,
            final(state).company_rows@,
        ),
        !append ==> lines_show(final(state).lines@, final(state).company_rows@),
        final(state).lines@.len() == kept_lines(old(state).lines@, append).len() + rows@.len(),
        forall|k: int|
            0 <= k < kept_lines(old(state).lines@, append).len() ==> #[trigger] final(state).lines@[k]
                == old(state).lines@[k],
        forall|k: int|
            0 <= k < rows@.len() ==> #[trigger] final(state).lines@[kept_lines(
                old(state).lines@,
                append,
            ).len() + k]@ == list_line(rows@[k].name@),
{
    if !append {
        state.lines = Vec::new();
        state.company_rows = Vec::new();
    }
    let ghost start_rows = state.company_rows@;
    let ghost start_lines = state.lines@;
    let ghost consistent = lines_show(start_lines, start_rows);
    let mut i: usize = 0;
    while i < rows.len()
        invariant
            i <= rows@.len(),
            state.all_companies == old(state).all_companies,
            state.total == old(state).total,
            state.offset == old(state).offset,
            state.status == old(state).status,
            start_rows == (if append { old(state).company_rows@ } else { Seq::empty() }),
            start_lines == (if append { old(state).lines@ } else { Seq::empty() }),
            consistent == lines_show(start_lines, start_rows),
            state.company_rows@ == start_rows + rows@.take(i as int),
            state.lines@.len() == start_lines.len() + i,
            forall|k: int| 0 <= k < start_lines.len() ==> #[trigger] state.lines@[k] == start_lines[k],
            forall|k: int| 0 <= k < i ==> #[trigger] state.lines@[start_lines.len() + k]@ == list_line(rows@[k].name@),
        decreases rows@.len() - i,
    {
        let line = line_for(&rows[i].name);
        state.lines.push(line);
        state.company_rows.push(rows[i].clone());
        assert(rows@.take(i + 1) == rows@.take(i as int).push(rows@[i as int]));
        i = i + 1;
    }
    assert(rows@.take(rows@.len() as int) == rows@);
    proof {
        if !append || lines_show(old(state).lines@, old(state).company_rows@) {
            let rs = state.company_rows@;
            assert forall|k: int| 0 <= k < rs.len() implies #[trigger] state.lines@[k]@ == list_line(rs[k].name@) by {
                if k >= start_lines.len() {
                    assert(state.lines@[start_lines.len() + (k - start_lines.len())]@ == list_line(rows@[k - start_lines.len()].name@));
                }
            }
        }
    }
}

/// The company on line `selected` of the list, counting lines from 1;
/// `None` when no line is selected (0 or less) or the line is past the end.
pub fn selected_company(rows: &Vec<CompanyRow>, selected: i32) -> (r: Option<CompanyRow>)
    ensures
        r == (if 1 <= selected <= rows@.len() { Some(rows@[selected - 1]) } else { None::<CompanyRow> }),
{
    if selected <= 0 {
        return None;
    }
    let idx = (selected - 1) as usize;
    if idx < rows.len() {
        Some(rows[idx].clone())
    } else {
        None
    }
}

/// The shown companies are loaded ones that match the search, in the order
/// they were loaded, and every loaded company that matches is shown.
pub proof fn lemma_visible_rows(all: Seq<CompanyRow>, search: Seq<char>)
    ensures
        visible_rows(all, search).len() <= all.len(),
        forall|i: int| 0 <= i < visible_rows(all, search).len() ==> all.contains(
            #[trigger] visible_rows(all, search)[i],
        ) && row_matches(visible_rows(all, search)[i], search_key(search)),
        forall|i: int| 0 <= i < all.len() && row_matches(all[i], search_key(search)) ==> visible_rows(
            all,
            search,
        ).contains(#[trigger] all[i]),
{
    let key = search_key(search);
    let pred = |r: CompanyRow| row_matches(r, key);
    if key.len() > 0 {
        assert forall|i: int| 0 <= i < visible_rows(all, search).len() implies all.contains(
            #[trigger] visible_rows(all, search)[i],
        ) && row_matches(visible_rows(all, search)[i], key) by {
            all.lemma_filter_pred(pred, i);
            assert(all.filter(pred).contains(all.filter(pred)[i]));
            all.lemma_filter_contains_rev(pred, all.filter(pred)[i]);
        }
        assert forall|i: int| 0 <= i < all.len() && row_matches(all[i], key) implies visible_rows(
            all,
            search,
        ).contains(#[trigger] all[i]) by {
            all.lemma_filter_contains(pred, i);
        }
    } else {
        assert forall|i: int| 0 <= i < all.len() implies row_matches(all[i], key) by {
            let z: int = 0;
            assert(lowercase_of(all[i].name@).subrange(z, z + key.len()) =~= key);
        }
        assert forall|i: int| 0 <= i < all.len() implies all.contains(#[trigger] all[i]) by {}
    }
}


/// `needle` sits in `hay` as the run of consecutive characters starting at
/// position `j`.
pub open spec fn run_at(hay: Seq<char>, needle: Seq<char>, j: int) -> bool {
    &&& 0 <= j
    &&& j + needle.len() <= hay.len()
    &&& forall|t: int| 0 <= t < needle.len() ==> hay[j + t] == #[trigger] needle[t]
}

/// `needle` sits somewhere in `hay` as a run of consecutive characters.
pub open spec fn holds_run(hay: Seq<char>, needle: Seq<char>) -> bool {
    exists|j: int| run_at(hay, needle, j)
}

proof fn lemma_shown_row_holds_key(row: CompanyRow, key: Seq<char>)
    requires
        row_matches(row, key),
    ensures
        holds_run(lowercase_of(row.name@), key),
{
    let hay = lowercase_of(row.name@);
    let j = choose|j: int|
        0 <= j <= hay.len() - key.len() && #[trigger] hay.subrange(j, j + key.len()) == key;
    assert forall|t: int| 0 <= t < key.len() implies hay[j + t] == #[trigger] key[t] by {
        assert(hay.subrange(j, j + key.len())[t] == hay[j + t]);
    }
    assert(run_at(hay, key, j));
}

/// The search shows exactly the companies whose lower-cased name holds the
/// lower-cased, trimmed search text as a run of consecutive characters:
/// every shown company holds it, every loaded company that holds it is
/// shown, and a blank search shows every loaded company, in order.
pub proof fn lemma_search_shows_exactly_matches(all: Seq<CompanyRow>, search: Seq<char>)
    ensures
        lowercase_of(trimmed(search)).len() == 0 ==> visible_rows(all, search) == all,
        forall|k: int|
            0 <= k < visible_rows(all, search).len() ==> holds_run(
                lowercase_of(#[trigger] visible_rows(all, search)[k].name@),
                lowercase_of(trimmed(search)),
            ),
        forall|i: int, j: int|
            0 <= i < all.len() && #[trigger] run_at(
                lowercase_of(all[i].name@),
                lowercase_of(trimmed(search)),
                j,
            ) ==> visible_rows(all, search).contains(all[i]),
{
    lemma_visible_rows(all, search);
    let key = lowercase_of(trimmed(search));
    assert forall|k: int| 0 <= k < visible_rows(all, search).len() implies holds_run(
        lowercase_of(#[trigger] visible_rows(all, search)[k].name@),
        key,
    ) by {
        lemma_shown_row_holds_key(visible_rows(all, search)[k], key);
    }
    assert forall|i: int, j: int|
        0 <= i < all.len() && #[trigger] run_at(lowercase_of(all[i].name@), key, j) implies visible_rows(
            all,
            search,
        ).contains(all[i]) by {
        let hay = lowercase_of(all[i].name@);
        assert(hay.subrange(j, j + key.len()) =~= key);
        assert(row_matches(all[i], key));
    }
}

} // verus!
