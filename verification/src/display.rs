//! The display layer: column-padded tables for artifact listings and
//! detail views. Every message is pinned down to the character, and
//! everything written through the capture buffer is accounted for.

use core::cmp::Ordering;
use vstd::prelude::*;
use vstd::string::*;

use crate::artifact::{details_id, Artifact, Details};
use crate::error::Error;
use crate::filter::opt_view;
use crate::result::WekanResult;
use crate::strutil::{
    char_index, contains_seq, contains_str, has_char, lemma_char_index_at, padded, pad_to,
    prefix_before, starts_with, trim_str, trimmed,
};

verus! {

/// Length comparison of two strings, by character count.
pub fn cmp_by_length(x: &str, y: &str) -> (r: Ordering)
    ensures
        x@.len() > y@.len() ==> r == Ordering::Greater,
        x@.len() == y@.len() ==> r == Ordering::Equal,
        x@.len() < y@.len() ==> r == Ordering::Less,
{
    let xl = x.unicode_len();
    let yl = y.unicode_len();
    if xl > yl {
        Ordering::Greater
    } else if xl == yl {
        Ordering::Equal
    } else {
        Ordering::Less
    }
}

/// The text before the first `T` of a timestamp: its day.
pub open spec fn date_part(s: Seq<char>) -> Seq<char> {
    s.subrange(0, char_index(s, 'T'))
}

/// The day of a timestamp, or empty when it has no `T` at all.
pub open spec fn safe_date(s: Seq<char>) -> Seq<char> {
    if has_char(s, 'T') {
        date_part(s)
    } else {
        Seq::<char>::empty()
    }
}

/// The day of a timestamp that is known to carry a `T`.
fn date_prefix(s: &str) -> (r: String)
    requires
        has_char(s@, 'T'),
    ensures
        r@ == date_part(s@),
{
    match prefix_before(s, 'T') {
        Some(p) => {
            proof {
                let i = choose|i: int|
                    {
                        &&& 0 <= i < s@.len()
                        &&& s@[i] == 'T'
                        &&& (forall|j: int| 0 <= j < i ==> s@[j] != 'T')
                        &&& p@ == s@.subrange(0, i)
                    };
                lemma_char_index_at(s@, 'T', i);
            }
            p
        },
        None => {
            proof {
                let w = choose|i: int| 0 <= i < s@.len() && s@[i] == 'T';
                assert(s@[w] != 'T');
                assert(false);
            }
            String::new()
        },
    }
}

/// The day of a timestamp, or empty when it carries no `T`.
pub fn safely_unwrap_date(d: &str) -> (r: String)
    ensures
        r@ == safe_date(d@),
{
    match prefix_before(d, 'T') {
        Some(p) => {
            proof {
                let i = choose|i: int|
                    {
                        &&& 0 <= i < d@.len()
                        &&& d@[i] == 'T'
                        &&& (forall|j: int| 0 <= j < i ==> d@[j] != 'T')
                        &&& p@ == d@.subrange(0, i)
                    };
                lemma_char_index_at(d@, 'T', i);
            }
            p
        },
        None => String::new(),
    }
}

/// A column header, shown only when its field holds anything.
pub open spec fn field_header(h: Seq<char>, field: Seq<char>) -> Seq<char> {
    if field.len() != 0 {
        h
    } else {
        Seq::<char>::empty()
    }
}

/// The header for an optional column: the header itself when the field is
/// filled, nothing when it is empty.
pub fn if_field_available(h: &str, field: &str) -> (r: String)
    ensures
        r@ == field_header(h@, field@),
{
    if !field.is_empty() {
        h.to_owned()
    } else {
        String::new()
    }
}

/// Column width: the cell text plus three spaces of gutter, saturating at
/// the machine's limit.
pub open spec fn pad_width(w: int) -> int {
    if w + 3 <= usize::MAX {
        w + 3
    } else {
        usize::MAX as int
    }
}

/// The larger of two lengths.
pub open spec fn nmax(a: int, b: int) -> int {
    if a >= b {
        a
    } else {
        b
    }
}

/// An id cut for display: the whole id under a long output format or when
/// it is short, else its first `n` characters.
pub open spec fn cut(id: Seq<char>, n: int, full: bool) -> Seq<char> {
    if full || id.len() <= n {
        id
    } else {
        id.subrange(0, n)
    }
}

/// Whether an output format asks for whole ids.
pub open spec fn long_format(f: Seq<char>) -> bool {
    "long"@.is_prefix_of(f) || "extended"@.is_prefix_of(f) || "extd"@.is_prefix_of(f)
}

/// Whether an optional output format asks for whole ids.
pub open spec fn opt_long_format(f: Option<Seq<char>>) -> bool {
    match f {
        Some(fv) => long_format(fv),
        None => false,
    }
}

/// Whether a format string asks for whole ids.
fn is_long_format(f: &str) -> (r: bool)
    ensures
        r == long_format(f@),
{
    starts_with(f, "long") || starts_with(f, "extended") || starts_with(f, "extd")
}

/// An id cut to `n` characters unless `full` asks for all of it.
fn cut_id(id: &str, n: usize, full: bool) -> (r: String)
    ensures
        r@ == cut(id@, n as int, full),
{
    if full {
        id.to_owned()
    } else {
        let l = id.unicode_len();
        if l <= n {
            id.to_owned()
        } else {
            id.substring_char(0, n).to_owned()
        }
    }
}

/// The width a detail view pads its columns to: the longest of its four
/// cells.
pub open spec fn details_width(d: Details, f: Option<Seq<char>>) -> int {
    nmax(
        nmax(
            nmax(
                cut(details_id(&d), 4, opt_long_format(f)).len() as int,
                d.title@.len() as int,
            ),
            date_part(d.modified_at@).len() as int,
        ),
        date_part(d.created_at@).len() as int,
    )
}

/// The message a detail view prints: a padded header row, a newline, the
/// padded cells, trimmed, and the closing rule.
pub open spec fn details_message(d: Details, f: Option<Seq<char>>) -> Seq<char> {
    let pw = pad_width(details_width(d, f)) as nat;
    trimmed(
        trimmed(
            padded("ID"@, pw) + padded("TITLE"@, pw) + padded("MODIFIED_AT"@, pw) + padded(
                "CREATED_AT"@,
                pw,
            ),
        ) + "\n"@ + padded(cut(details_id(&d), 4, opt_long_format(f)), pw) + padded(d.title@, pw)
            + padded(date_part(d.modified_at@), pw) + padded(date_part(d.created_at@), pw),
    ) + "\n----\n"@
}

/// What a detail view leaves in the capture buffer: each padded cell, in
/// print order.
pub open spec fn details_capture(d: Details, f: Option<Seq<char>>) -> Seq<char> {
    let pw = pad_width(details_width(d, f)) as nat;
    padded("ID"@, pw) + padded("TITLE"@, pw) + padded("MODIFIED_AT"@, pw) + padded(
        "CREATED_AT"@,
        pw,
    ) + padded(cut(details_id(&d), 4, opt_long_format(f)), pw) + padded(d.title@, pw) + padded(
        date_part(d.modified_at@),
        pw,
    ) + padded(date_part(d.created_at@), pw)
}

/// The width a full detail view pads its columns to: the longest of its
/// six cells.
pub open spec fn most_details_width(d: Details) -> int {
    nmax(
        nmax(
            nmax(
                nmax(
                    nmax(details_id(&d).len() as int, d.title@.len() as int),
                    date_part(d.modified_at@).len() as int,
                ),
                date_part(d.created_at@).len() as int,
            ),
            safe_date(end_text(d)).len() as int,
        ),
        safe_date(due_text(d)).len() as int,
    )
}

/// The end date a detail payload shows, empty when none is set.
pub open spec fn end_text(d: Details) -> Seq<char> {
    match d.end_at {
        Some(e) => e@,
        None => Seq::<char>::empty(),
    }
}

/// The due date a detail payload shows, empty when none is set.
pub open spec fn due_text(d: Details) -> Seq<char> {
    match d.due_at {
        Some(e) => e@,
        None => Seq::<char>::empty(),
    }
}

/// The message a full detail view prints: four fixed headers, the due and
/// end headers when those fields are filled, then the six padded cells.
pub open spec fn most_details_message(d: Details) -> Seq<char> {
    let pw = pad_width(most_details_width(d)) as nat;
    trimmed(
        trimmed(
            padded("ID"@, pw) + padded("TITLE"@, pw) + padded("MODIFIED_AT"@, pw) + padded(
                "CREATED_AT"@,
                pw,
            ) + padded(field_header("DUE_AT"@, due_text(d)), pw) + padded(
                field_header("END_AT"@, end_text(d)),
                pw,
            ),
        ) + "\n"@ + padded(details_id(&d), pw) + padded(d.title@, pw) + padded(
            date_part(d.modified_at@),
            pw,
        ) + padded(date_part(d.created_at@), pw) + padded(safe_date(end_text(d)), pw) + padded(
            safe_date(due_text(d)),
            pw,
        ),
    ) + "\n----\n"@
}

/// What a full detail view leaves in the capture buffer.
pub open spec fn most_details_capture(d: Details) -> Seq<char> {
    let pw = pad_width(most_details_width(d)) as nat;
    padded("ID"@, pw) + padded("TITLE"@, pw) + padded("MODIFIED_AT"@, pw) + padded(
        "CREATED_AT"@,
        pw,
    ) + padded(field_header("DUE_AT"@, due_text(d)), pw) + padded(
        field_header("END_AT"@, end_text(d)),
        pw,
    ) + padded(details_id(&d), pw) + padded(d.title@, pw) + padded(date_part(d.modified_at@), pw)
        + padded(date_part(d.created_at@), pw) + padded(safe_date(end_text(d)), pw) + padded(
        safe_date(due_text(d)),
        pw,
    )
}

/// Whether a listing format asks for the rust or elisp layout.
pub open spec fn fmt_rust_or_elisp(f: Seq<char>) -> bool {
    contains_seq(f, "rust"@) || contains_seq(f, "elisp"@)
}

/// What one artifact adds to a listing under way: two padded cells, and in
/// the plain layout a trim of everything so far and a line break.
pub open spec fn artifact_row_step(acc: Seq<char>, a: Artifact, f: Seq<char>) -> Seq<char> {
    if fmt_rust_or_elisp(f) {
        acc + padded(cut(a._id@, 3, long_format(f)), 6) + padded(a.title@, 6)
    } else if contains_seq(f, "extended"@) {
        acc + padded(a._id@, 6) + padded(a.title@, 6)
    } else {
        trimmed(acc + padded(cut(a._id@, 4, long_format(f)), 6) + padded(a.title@, 6)) + "\n"@
    }
}

/// A listing built up over the candidates, front to back.
pub open spec fn artifacts_rows(c: Seq<Artifact>, f: Seq<char>, acc: Seq<char>) -> Seq<char>
    decreases c.len(),
{
    if c.len() == 0 {
        acc
    } else {
        artifacts_rows(c.drop_first(), f, artifact_row_step(acc, c[0], f))
    }
}

/// The message a listing prints: the trimmed header row, a newline, each
/// artifact's cells, and the closing rule.
pub open spec fn artifacts_message(c: Seq<Artifact>, f: Seq<char>) -> Seq<char> {
    artifacts_rows(c, f, trimmed(padded("ID"@, 6) + padded("TITLE"@, 6)) + "\n"@) + "\n----\n"@
}

/// What one artifact leaves in the capture buffer.
pub open spec fn artifact_capture_step(a: Artifact, f: Seq<char>) -> Seq<char> {
    if fmt_rust_or_elisp(f) {
        padded(cut(a._id@, 3, long_format(f)), 6) + padded(a.title@, 6)
    } else if contains_seq(f, "extended"@) {
        padded(a._id@, 6) + padded(a.title@, 6)
    } else {
        padded(cut(a._id@, 4, long_format(f)), 6) + padded(a.title@, 6)
    }
}

/// What a listing leaves in the capture buffer, beyond its header row.
pub open spec fn artifacts_capture(c: Seq<Artifact>, f: Seq<char>) -> Seq<char>
    decreases c.len(),
{
    if c.len() == 0 {
        Seq::<char>::empty()
    } else {
        artifacts_capture(c.drop_last(), f) + artifact_capture_step(c.last(), f)
    }
}

proof fn lemma_artifacts_rows_snoc(c: Seq<Artifact>, a: Artifact, f: Seq<char>, acc: Seq<char>)
    ensures
        artifacts_rows(c.push(a), f, acc) == artifact_row_step(artifacts_rows(c, f, acc), a, f),
    decreases c.len(),
{
    if c.len() == 0 {
        assert(c.push(a)[0] == a);
        assert(c.push(a).drop_first() =~= Seq::<Artifact>::empty());
        assert(artifacts_rows(c.push(a), f, acc) == artifacts_rows(
            Seq::<Artifact>::empty(),
            f,
            artifact_row_step(acc, a, f),
        ));
        assert(artifacts_rows(Seq::<Artifact>::empty(), f, artifact_row_step(acc, a, f))
            == artifact_row_step(acc, a, f));
        assert(artifacts_rows(c, f, acc) == acc);
    } else {
        assert(c.push(a)[0] == c[0]);
        assert(c.push(a).drop_first() =~= c.drop_first().push(a));
        assert(artifacts_rows(c.push(a), f, acc) == artifacts_rows(
            c.drop_first().push(a),
            f,
            artifact_row_step(acc, c[0], f),
        ));
        assert(artifacts_rows(c, f, acc) == artifacts_rows(
            c.drop_first(),
            f,
            artifact_row_step(acc, c[0], f),
        ));
        lemma_artifacts_rows_snoc(c.drop_first(), a, f, artifact_row_step(acc, c[0], f));
    }
}

/// The padded title row of a table's lists.
pub open spec fn titles_row(lists: Seq<Artifact>) -> Seq<char>
    decreases lists.len(),
{
    if lists.len() == 0 {
        Seq::<char>::empty()
    } else {
        titles_row(lists.drop_last()) + padded(lists.last().title@, 6)
    }
}

/// The padded row of each list's first card; lists without cards add
/// nothing.
pub open spec fn first_cards_row(cards: Seq<Vec<Artifact>>) -> Seq<char>
    decreases cards.len(),
{
    if cards.len() == 0 {
        Seq::<char>::empty()
    } else {
        first_cards_row(cards.drop_last()) + (if cards.last()@.len() > 0 {
            padded(cards.last()@[0].title@, 6)
        } else {
            Seq::<char>::empty()
        })
    }
}

/// The display: a capture buffer and the padding discipline around it.
#[derive(Debug)]
pub struct CliDisplay {
    pub writer: String,
}

impl Clone for CliDisplay {
    fn clone(&self) -> (r: Self)
        ensures
            r == *self,
    {
        CliDisplay { writer: self.writer.clone() }
    }
}

impl CliDisplay {
    /// A display over the given buffer.
    pub fn new(writer: String) -> (r: Self)
        ensures
            r.writer == writer,
    {
        CliDisplay { writer }
    }

    /// Appends raw text to the capture buffer.
    pub fn capture_out(&mut self, msg: &str)
        ensures
            final(self).writer@ == old(self).writer@ + msg@,
    {
        self.writer.append(msg);
    }

    /// Hands the captured text over.
    pub fn get_captured(self) -> (r: String)
        ensures
            r == self.writer,
    {
        self.writer
    }

    /// Pads one cell to its column and records it in the capture buffer.
    fn format(&mut self, msg: &str, width: usize) -> (r: String)
        ensures
            r@ == padded(msg@, pad_width(width as int) as nat),
            final(self).writer@ == old(self).writer@ + r@,
    {
        let target = if width <= usize::MAX - 3 {
            width + 3
        } else {
            usize::MAX
        };
        let padded_text = pad_to(msg, target);
        self.capture_out(padded_text.as_str());
        padded_text
    }

    /// Prints the four-column detail view of one artifact.
    #[verifier::rlimit(60)]
    pub fn print_details(&mut self, artifact_details: &Details, format: Option<String>) -> (r:
        Result<WekanResult, Error>)
        requires
            has_char(artifact_details.modified_at@, 'T'),
            has_char(artifact_details.created_at@, 'T'),
        ensures
            (r matches Ok(wr) && wr.message@ == details_message(
                *artifact_details,
                opt_view(format),
            ) && wr.exit_code == 0 && wr.next_workflow is None),
            final(self).writer@ == old(self).writer@ + details_capture(
                *artifact_details,
                opt_view(format),
            ),
    {
        let ghost d = *artifact_details;
        let ghost fv = opt_view(format);
        let full = match &format {
            Some(f) => is_long_format(f.as_str()),
            None => false,
        };
        let p1 = cut_id(artifact_details.get_id().as_str(), 4, full);
        let p2 = artifact_details.get_title();
        let p3 = date_prefix(artifact_details.modified_at.as_str());
        let p4 = date_prefix(artifact_details.created_at.as_str());
        proof {
            assert(p1@ == cut(details_id(&d), 4, opt_long_format(fv)));
        }
        let mut w = p1.as_str().unicode_len();
        let l2 = p2.as_str().unicode_len();
        if l2 >= w {
            w = l2;
        }
        let l3 = p3.as_str().unicode_len();
        if l3 >= w {
            w = l3;
        }
        let l4 = p4.as_str().unicode_len();
        if l4 >= w {
            w = l4;
        }
        proof {
            assert(w as int == details_width(d, fv));
        }
        let ghost pw = pad_width(w as int) as nat;
        let mut output = String::new();
        output.append(self.format("ID", w).as_str());
        output.append(self.format("TITLE", w).as_str());
        output.append(self.format("MODIFIED_AT", w).as_str());
        output.append(self.format("CREATED_AT", w).as_str());
        proof {
            assert(output@ == padded("ID"@, pw) + padded("TITLE"@, pw) + padded(
                "MODIFIED_AT"@,
                pw,
            ) + padded("CREATED_AT"@, pw));
        }
        let mut body = trim_str(output.as_str());
        body.append("\n");
        body.append(self.format(p1.as_str(), w).as_str());
        body.append(self.format(p2.as_str(), w).as_str());
        body.append(self.format(p3.as_str(), w).as_str());
        body.append(self.format(p4.as_str(), w).as_str());
        proof {
            assert(body@ == trimmed(
                padded("ID"@, pw) + padded("TITLE"@, pw) + padded("MODIFIED_AT"@, pw) + padded(
                    "CREATED_AT"@,
                    pw,
                ),
            ) + "\n"@ + padded(cut(details_id(&d), 4, opt_long_format(fv)), pw) + padded(
                d.title@,
                pw,
            ) + padded(date_part(d.modified_at@), pw) + padded(date_part(d.created_at@), pw));
        }
        let mut msg = trim_str(body.as_str());
        msg.append("\n----\n");
        proof {
            assert(msg@ == details_message(d, fv));
            assert(self.writer@ == old(self).writer@ + details_capture(d, fv));
        }
        WekanResult::new_msg(msg.as_str()).ok()
    }

    /// Pads six cells to one row and records them in the capture buffer.
    fn row6(
        &mut self,
        c1: &str,
        c2: &str,
        c3: &str,
        c4: &str,
        c5: &str,
        c6: &str,
        width: usize,
    ) -> (r: String)
        ensures
            ({
                let pw = pad_width(width as int) as nat;
                r@ == padded(c1@, pw) + padded(c2@, pw) + padded(c3@, pw) + padded(c4@, pw)
                    + padded(c5@, pw) + padded(c6@, pw)
            }),
            final(self).writer@ == old(self).writer@ + r@,
    {
        let mut row = String::new();
        row.append(self.format(c1, width).as_str());
        row.append(self.format(c2, width).as_str());
        row.append(self.format(c3, width).as_str());
        row.append(self.format(c4, width).as_str());
        row.append(self.format(c5, width).as_str());
        row.append(self.format(c6, width).as_str());
        row
    }

    /// Prints the six-column detail view of one artifact, dates included.
    #[verifier::rlimit(100)]
    pub fn print_most_details(&mut self, artifact_details: &Details) -> (r: Result<
        WekanResult,
        Error,
    >)
        requires
            has_char(artifact_details.modified_at@, 'T'),
            has_char(artifact_details.created_at@, 'T'),
        ensures
            (r matches Ok(wr) && wr.message@ == most_details_message(*artifact_details)
                && wr.exit_code == 0 && (wr.next_workflow matches Some(n) && n@
                == "Update the specified artifact with the subcommand 'update'"@)),
            final(self).writer@ == old(self).writer@ + most_details_capture(*artifact_details),
    {
        let ghost d = *artifact_details;
        let p1 = artifact_details.get_id();
        let p2 = artifact_details.get_title();
        let p3 = date_prefix(artifact_details.modified_at.as_str());
        let p4 = date_prefix(artifact_details.created_at.as_str());
        let p5 = safely_unwrap_date(artifact_details.get_end_at().as_str());
        let p6 = safely_unwrap_date(artifact_details.get_due_at().as_str());
        proof {
            assert(p1@ == details_id(&d));
            assert(p5@ == safe_date(end_text(d)));
            assert(p6@ == safe_date(due_text(d)));
        }
        let mut w = p1.as_str().unicode_len();
        let l2 = p2.as_str().unicode_len();
        if l2 >= w {
            w = l2;
        }
        let l3 = p3.as_str().unicode_len();
        if l3 >= w {
            w = l3;
        }
        let l4 = p4.as_str().unicode_len();
        if l4 >= w {
            w = l4;
        }
        let l5 = p5.as_str().unicode_len();
        if l5 >= w {
            w = l5;
        }
        let l6 = p6.as_str().unicode_len();
        if l6 >= w {
            w = l6;
        }
        proof {
            assert(w as int == most_details_width(d));
        }
        let ghost pw = pad_width(w as int) as nat;
        let h5 = if_field_available("DUE_AT", artifact_details.get_due_at().as_str());
        let h6 = if_field_available("END_AT", artifact_details.get_end_at().as_str());
        proof {
            assert(h5@ == field_header("DUE_AT"@, due_text(d)));
            assert(h6@ == field_header("END_AT"@, end_text(d)));
        }
        let output = self.row6("ID", "TITLE", "MODIFIED_AT", "CREATED_AT", h5.as_str(), h6.as_str(), w);
        let cells = self.row6(
            p1.as_str(),
            p2.as_str(),
            p3.as_str(),
            p4.as_str(),
            p5.as_str(),
            p6.as_str(),
            w,
        );
        let mut body = trim_str(output.as_str());
        body.append("\n");
        body.append(cells.as_str());
        proof {
            assert(body@ == trimmed(
                padded("ID"@, pw) + padded("TITLE"@, pw) + padded("MODIFIED_AT"@, pw) + padded(
                    "CREATED_AT"@,
                    pw,
                ) + padded(field_header("DUE_AT"@, due_text(d)), pw) + padded(
                    field_header("END_AT"@, end_text(d)),
                    pw,
                ),
            ) + "\n"@ + (padded(details_id(&d), pw) + padded(d.title@, pw) + padded(
                date_part(d.modified_at@),
                pw,
            ) + padded(date_part(d.created_at@), pw) + padded(safe_date(end_text(d)), pw) + padded(
                safe_date(due_text(d)),
                pw,
            )));
            assert(body@ =~= trimmed(
                padded("ID"@, pw) + padded("TITLE"@, pw) + padded("MODIFIED_AT"@, pw) + padded(
                    "CREATED_AT"@,
                    pw,
                ) + padded(field_header("DUE_AT"@, due_text(d)), pw) + padded(
                    field_header("END_AT"@, end_text(d)),
                    pw,
                ),
            ) + "\n"@ + padded(details_id(&d), pw) + padded(d.title@, pw) + padded(
                date_part(d.modified_at@),
                pw,
            ) + padded(date_part(d.created_at@), pw) + padded(safe_date(end_text(d)), pw) + padded(
                safe_date(due_text(d)),
                pw,
            ));
        }
        let mut msg = trim_str(body.as_str());
        msg.append("\n----\n");
        proof {
            assert(msg@ == most_details_message(d));
            assert(self.writer@ =~= old(self).writer@ + most_details_capture(d));
        }
        WekanResult::new_workflow(
            msg.as_str(),
            "Update the specified artifact with the subcommand 'update'",
        ).ok()
    }

    /// Prints the two-column listing of a set of artifacts.
    pub fn print_artifacts(&mut self, artifacts: Vec<Artifact>, format: String) -> (r: Result<
        WekanResult,
        Error,
    >)
        ensures
            (r matches Ok(wr) && wr.message@ == artifacts_message(artifacts@, format@)
                && wr.exit_code == 0 && (wr.next_workflow matches Some(n) && n@
                == "Get or update details of an artifact."@)),
            final(self).writer@ == old(self).writer@ + (padded("ID"@, 6) + padded("TITLE"@, 6))
                + artifacts_capture(artifacts@, format@),
    {
        let ghost f0 = format@;
        let rust_or_elisp = contains_str(format.as_str(), "rust") || contains_str(
            format.as_str(),
            "elisp",
        );
        let extended = contains_str(format.as_str(), "extended");
        let full = is_long_format(format.as_str());
        let mut output = String::new();
        output.append(self.format("ID", 3).as_str());
        output.append(self.format("TITLE", 3).as_str());
        let mut output = trim_str(output.as_str());
        output.append("\n");
        let ghost base = output@;
        let ghost writer_mark = self.writer@;
        let n = artifacts.len();
        let mut i: usize = 0;
        while i < n
            invariant
                i <= n,
                n == artifacts@.len(),
                format@ == f0,
                rust_or_elisp == fmt_rust_or_elisp(f0),
                extended == contains_seq(f0, "extended"@),
                full == long_format(f0),
                output@ == artifacts_rows(artifacts@.subrange(0, i as int), f0, base),
                self.writer@ == writer_mark + artifacts_capture(
                    artifacts@.subrange(0, i as int),
                    f0,
                ),
            decreases n - i,
        {
            let a = &artifacts[i];
            if rust_or_elisp {
                let idc = cut_id(a._id.as_str(), 3, full);
                output.append(self.format(idc.as_str(), 3).as_str());
                output.append(self.format(a.title.as_str(), 3).as_str());
            } else if extended {
                output.append(self.format(a._id.as_str(), 3).as_str());
                output.append(self.format(a.title.as_str(), 3).as_str());
            } else {
                let idc = cut_id(a._id.as_str(), 4, full);
                output.append(self.format(idc.as_str(), 3).as_str());
                output.append(self.format(a.title.as_str(), 3).as_str());
                let trimmed_out = trim_str(output.as_str());
                output = trimmed_out;
                output.append("\n");
            }
            proof {
                let pre = artifacts@.subrange(0, i as int);
                assert(artifacts@.subrange(0, i + 1) =~= pre.push(artifacts@[i as int]));
                lemma_artifacts_rows_snoc(pre, artifacts@[i as int], f0, base);
                assert(artifacts@.subrange(0, i + 1).drop_last() =~= pre);
            }
            i = i + 1;
        }
        proof {
            assert(artifacts@.subrange(0, n as int) =~= artifacts@);
        }
        let mut msg = output;
        msg.append("\n----\n");
        WekanResult::new_workflow(msg.as_str(), "Get or update details of an artifact.").ok()
    }

    /// Prepends accumulated text to a fresh listing of artifacts.
    pub fn prepare_output(&mut self, output: &str, artifacts: Vec<Artifact>, format: String) -> (r:
        Result<WekanResult, Error>)
        ensures
            (r matches Ok(wr) && wr.message@ == output@ + artifacts_message(artifacts@, format@)
                && wr.exit_code == 0 && (wr.next_workflow matches Some(n) && n@
                == "Get or update details of an artifact."@)),
            final(self).writer@ == old(self).writer@ + (padded("ID"@, 6) + padded("TITLE"@, 6))
                + artifacts_capture(artifacts@, format@),
    {
        let mut full_output = output.to_owned();
        match self.print_artifacts(artifacts, format) {
            Ok(second) => {
                full_output.append(second.get_msg().as_str());
                match second.get_next_workflow() {
                    Some(wf) => WekanResult::new_workflow(
                        full_output.as_str(),
                        wf.as_str(),
                    ).ok(),
                    None => {
                        proof {
                            assert(false);
                        }
                        WekanResult::new_msg(full_output.as_str()).ok()
                    },
                }
            },
            Err(e) => {
                proof {
                    assert(false);
                }
                Err(e)
            },
        }
    }

    /// Prints a board table: every list's title, then each list's first
    /// card.
    pub fn print_table(&mut self, lists: Vec<Artifact>, cards: Vec<Vec<Artifact>>) -> (r: Result<
        WekanResult,
        Error,
    >)
        ensures
            (r matches Ok(wr) && wr.message@ == titles_row(lists@) + "\n"@ + first_cards_row(
                cards@,
            ) + "\n----\n"@ && wr.exit_code == 0 && wr.next_workflow is None),
            final(self).writer@ == old(self).writer@ + titles_row(lists@) + first_cards_row(
                cards@,
            ),
    {
        let mut output = String::new();
        let ghost writer_mark = self.writer@;
        let n = lists.len();
        let mut i: usize = 0;
        while i < n
            invariant
                i <= n,
                n == lists@.len(),
                output@ == titles_row(lists@.subrange(0, i as int)),
                self.writer@ == writer_mark + titles_row(lists@.subrange(0, i as int)),
            decreases n - i,
        {
            output.append(self.format(lists[i].title.as_str(), 3).as_str());
            proof {
                assert(lists@.subrange(0, i + 1).drop_last() =~= lists@.subrange(0, i as int));
            }
            i = i + 1;
        }
        proof {
            assert(lists@.subrange(0, n as int) =~= lists@);
        }
        output.append("\n");
        let ghost writer_mid = self.writer@;
        let m = cards.len();
        let mut j: usize = 0;
        let mut row = String::new();
        while j < m
            invariant
                j <= m,
                m == cards@.len(),
                row@ == first_cards_row(cards@.subrange(0, j as int)),
                self.writer@ == writer_mid + first_cards_row(cards@.subrange(0, j as int)),
            decreases m - j,
        {
            let inner = &cards[j];
            if inner.len() > 0 {
                row.append(self.format(inner[0].title.as_str(), 3).as_str());
            }
            proof {
                assert(cards@.subrange(0, j + 1).drop_last() =~= cards@.subrange(0, j as int));
            }
            j = j + 1;
        }
        proof {
            assert(cards@.subrange(0, m as int) =~= cards@);
        }
        output.append(row.as_str());
        output.append("\n----\n");
        WekanResult::new_msg(output.as_str()).ok()
    }
}

} // verus!
