//! Markdown documents built from notes: one note on its own, or a whole
//! collection decoded from JSON.
use vstd::prelude::*;
use crate::error::TransferError;
use crate::stamp::{clock_text, is_digit, utc_now_text, DISPLAY_STAMP_FORMAT};

verus! {

#[verifier::external_type_specification]
#[verifier::external_body]
pub struct ExJsonValue(serde_json::Value);

#[verifier::external_type_specification]
#[verifier::external_body]
pub struct ExJsonError(serde_json::Error);

/// Heading used for a note that has no usable title.
pub const UNTITLED: &'static str = "无标题";

/// The fields of a note that an export reads; a field that is missing or not
/// a string is `None`.
#[derive(Clone, Debug)]
pub struct NoteFields {
    pub title: Option<String>,
    pub content: Option<String>,
    pub created_at: Option<String>,
}

pub struct NoteView {
    pub title: Option<Seq<char>>,
    pub content: Option<Seq<char>>,
    pub created_at: Option<Seq<char>>,
}

pub open spec fn opt_view(o: Option<String>) -> Option<Seq<char>> {
    match o {
        Some(s) => Some(s@),
        None => None,
    }
}

impl View for NoteFields {
    type V = NoteView;

    open spec fn view(&self) -> NoteView {
        NoteView {
            title: opt_view(self.title),
            content: opt_view(self.content),
            created_at: opt_view(self.created_at),
        }
    }
}

pub open spec fn note_views(ns: Seq<NoteFields>) -> Seq<NoteView> {
    ns.map_values(|n: NoteFields| n@)
}

pub open spec fn text_or(o: Option<Seq<char>>, fallback: Seq<char>) -> Seq<char> {
    match o {
        Some(t) => t,
        None => fallback,
    }
}

/// The document for one note: its title as a level-one heading, its
/// content, a rule, and the export time.
pub open spec fn note_doc(title: Seq<char>, content: Seq<char>, stamp: Seq<char>) -> Seq<char> {
    "# "@ + title + "\n\n"@ + content + "\n\n---\n\n*导出时间: "@ + stamp + "*"@
}

/// The opening of a collection document.
pub open spec fn collection_header(stamp: Seq<char>) -> Seq<char> {
    "# 笔记导出\n\n导出时间: "@ + stamp + "\n\n---\n\n"@
}

/// The part of a collection document for one note, with its fallbacks.
pub open spec fn note_section(n: NoteView) -> Seq<char> {
    "## "@ + text_or(n.title, UNTITLED@) + "\n\n*创建时间: "@ + text_or(n.created_at, Seq::empty())
        + "*\n\n"@ + text_or(n.content, Seq::empty()) + "\n\n---\n\n"@
}

pub open spec fn note_sections(ns: Seq<NoteView>) -> Seq<char>
    decreases ns.len(),
{
    if ns.len() == 0 {
        Seq::empty()
    } else {
        note_sections(ns.drop_last()) + note_section(ns.last())
    }
}

/// The document for a collection: the header, then one section per note in
/// order.
pub open spec fn collection_doc(ns: Seq<NoteView>, stamp: Seq<char>) -> Seq<char> {
    collection_header(stamp) + note_sections(ns)
}

/// The number of elements of `s` read as a JSON array, or `None` where `s`
/// is not JSON or its top level is not an array.
pub uninterp spec fn json_array_length(s: Seq<char>) -> Option<nat>;

/// The member `key` of element `i` of the JSON array `s`, where that element
/// is an object and the member a string.
pub uninterp spec fn json_string_member(s: Seq<char>, i: nat, key: Seq<char>) -> Option<Seq<char>>;

/// Relies on `serde_json::from_str::<Vec<serde_json::Value>>`, which succeeds
/// exactly on JSON text whose top level is an array, and on serde_json's
/// `Value::get` and `Value::as_str`, which give the member `key` of each
/// element when it is a string: `None` for a missing member, another kind of
/// member, or an element that is not an object.
#[verifier::external_body]
fn json_string_members(s: &str, key: &str) -> (r: Result<Vec<Option<String>>, serde_json::Error>)
    ensures
        r is Ok <==> json_array_length(s@) is Some,
        r is Ok ==> r->Ok_0@.len() == json_array_length(s@)->Some_0,
        r is Ok ==> forall|i: int|
            0 <= i < r->Ok_0@.len() ==> opt_view(#[trigger] r->Ok_0@[i]) == json_string_member(
                s@,
                i as nat,
                key@,
            ),
{
    let values: Vec<serde_json::Value> = serde_json::from_str(s)?;
    Ok(values.iter().map(|v| v.get(key).and_then(serde_json::Value::as_str).map(String::from)).collect())
}

/// The fields of element `i` of the JSON array `s`.
pub open spec fn json_note(s: Seq<char>, i: nat) -> NoteView {
    NoteView {
        title: json_string_member(s, i, "title"@),
        content: json_string_member(s, i, "content"@),
        created_at: json_string_member(s, i, "created_at"@),
    }
}

/// The notes of the JSON array `s`, in order.
pub open spec fn json_notes(s: Seq<char>) -> Seq<NoteView> {
    Seq::new(json_array_length(s)->Some_0, |i: int| json_note(s, i as nat))
}

/// Relies on the `Display` of `serde_json::Error`: its description.
#[verifier::external_body]
fn json_error_text(e: &serde_json::Error) -> (r: String) {
    e.to_string()
}

fn text_or_fallback<'a>(o: &'a Option<String>, fallback: &'a str) -> (r: &'a str)
    ensures
        r@ == text_or(opt_view(*o), fallback@),
{
    match o {
        Some(t) => t.as_str(),
        None => fallback,
    }
}

/// The document for one note, exported at time `stamp`.
pub fn note_markdown(title: &str, content: &str, stamp: &str) -> (r: String)
    ensures
        r@ == note_doc(title@, content@, stamp@),
{
    let mut r = String::from_str("# ");
    r.append(title);
    r.append("\n\n");
    r.append(content);
    r.append("\n\n---\n\n*导出时间: ");
    r.append(stamp);
    r.append("*");
    r
}

/// The document for one note, exported now; `Clock` when the clock gives no
/// time that can be written.
pub fn export_note_to_markdown(title: &str, content: &str) -> (r: Result<String, TransferError>)
    ensures
        r is Err ==> r->Err_0 is Clock,
        r is Ok ==> exists|stamp: Seq<char>|
            clock_text(stamp, DISPLAY_STAMP_FORMAT@) && r->Ok_0@ == note_doc(title@, content@, stamp),
{
    match utc_now_text(DISPLAY_STAMP_FORMAT) {
        None => Err(TransferError::Clock),
        Some(stamp) => {
            let r = note_markdown(title, content, stamp.as_str());
            assert(clock_text(stamp@, DISPLAY_STAMP_FORMAT@) && r@ == note_doc(title@, content@, stamp@));
            Ok(r)
        },
    }
}

/// Every time text of the display format, put in a single-note document,
/// leaves the footer as the document's last line: it holds no line break
/// and no `#`.
pub proof fn lemma_footer_is_one_line(stamp: Seq<char>)
    requires
        clock_text(stamp, DISPLAY_STAMP_FORMAT@),
    ensures
        !stamp.contains('\n'),
        !stamp.contains('#'),
{
    reveal_strlit("%Y-%m-%d %H:%M:%S UTC");
    let f = DISPLAY_STAMP_FORMAT@;
    assert(!f.contains('\n') && !f.contains('#')) by {
        assert forall|i: int| 0 <= i < f.len() implies f[i] != '\n' && f[i] != '#' by {}
    }
    assert(!stamp.contains('\n') && !stamp.contains('#')) by {
        assert forall|i: int| 0 <= i < stamp.len() implies stamp[i] != '\n' && stamp[i] != '#' by {
            assert(is_digit(stamp[i]) || stamp[i] == '+' || f.contains(stamp[i]));
        }
    }
}

/// The section of a collection document for one note.
pub fn note_section_markdown(n: &NoteFields) -> (r: String)
    ensures
        r@ == note_section(n@),
{
    let mut r = String::from_str("## ");
    r.append(text_or_fallback(&n.title, UNTITLED));
    r.append("\n\n*创建时间: ");
    r.append(text_or_fallback(&n.created_at, ""));
    r.append("*\n\n");
    r.append(text_or_fallback(&n.content, ""));
    r.append("\n\n---\n\n");
    proof {
        reveal_strlit("");
        assert(""@ =~= Seq::<char>::empty());
    }
    r
}

/// The document for a collection of notes, exported at time `stamp`.
pub fn notes_markdown(notes: &Vec<NoteFields>, stamp: &str) -> (r: String)
    ensures
        r@ == collection_doc(note_views(notes@), stamp@),
{
    let mut r = String::from_str("# 笔记导出\n\n导出时间: ");
    r.append(stamp);
    r.append("\n\n---\n\n");
    let ghost views = note_views(notes@);
    proof {
        assert(views.subrange(0, 0) =~= Seq::<NoteView>::empty());
    }
    let mut i: usize = 0;
    while i < notes.len()
        invariant
            i <= notes@.len(),
            views == note_views(notes@),
            r@ == collection_header(stamp@) + note_sections(views.subrange(0, i as int)),
        decreases notes@.len() - i,
    {
        let section = note_section_markdown(&notes[i]);
        r.append(section.as_str());
        proof {
            let next = views.subrange(0, i + 1);
            assert(next.drop_last() =~= views.subrange(0, i as int));
            assert(next.last() == notes@[i as int]@);
        }
        i = i + 1;
    }
    proof {
        assert(views.subrange(0, i as int) =~= views);
    }
    r
}

fn clone_text(o: &Option<String>) -> (r: Option<String>)
    ensures
        opt_view(r) == opt_view(*o),
{
    match o {
        Some(t) => Some(t.clone()),
        None => None,
    }
}

/// Reads the note fields out of the JSON text `notes_json`, which must be an
/// array; an element that is not an object, or lacks a field, gets `None`
/// there.
pub fn decode_notes(notes_json: &str) -> (r: Result<Vec<NoteFields>, TransferError>)
    ensures
        r is Ok <==> json_array_length(notes_json@) is Some,
        r is Ok ==> note_views(r->Ok_0@) == json_notes(notes_json@),
        r is Err ==> r->Err_0 is Parse,
{
    let titles = match json_string_members(notes_json, "title") {
        Err(e) => return Err(TransferError::Parse(json_error_text(&e))),
        Ok(v) => v,
    };
    let contents = match json_string_members(notes_json, "content") {
        Err(e) => return Err(TransferError::Parse(json_error_text(&e))),
        Ok(v) => v,
    };
    let created = match json_string_members(notes_json, "created_at") {
        Err(e) => return Err(TransferError::Parse(json_error_text(&e))),
        Ok(v) => v,
    };
    let ghost want = json_notes(notes_json@);
    let mut notes: Vec<NoteFields> = Vec::new();
    let mut i: usize = 0;
    while i < titles.len()
        invariant
            i <= titles@.len(),
            titles@.len() == contents@.len(),
            titles@.len() == created@.len(),
            titles@.len() == want.len(),
            want == json_notes(notes_json@),
            json_array_length(notes_json@) is Some,
            forall|k: int|
                0 <= k < titles@.len() ==> opt_view(#[trigger] titles@[k]) == json_string_member(
                    notes_json@,
                    k as nat,
                    "title"@,
                ),
            forall|k: int|
                0 <= k < contents@.len() ==> opt_view(#[trigger] contents@[k]) == json_string_member(
                    notes_json@,
                    k as nat,
                    "content"@,
                ),
            forall|k: int|
                0 <= k < created@.len() ==> opt_view(#[trigger] created@[k]) == json_string_member(
                    notes_json@,
                    k as nat,
                    "created_at"@,
                ),
            notes@.len() == i,
            note_views(notes@) == want.subrange(0, i as int),
        decreases titles@.len() - i,
    {
        let n = NoteFields {
            title: clone_text(&titles[i]),
            content: clone_text(&contents[i]),
            created_at: clone_text(&created[i]),
        };
        let ghost prev = notes@;
        let ghost nv = n@;
        proof {
            assert(nv == want[i as int]);
        }
        notes.push(n);
        proof {
            assert(notes@ == prev.push(n));
            assert forall|k: int| 0 <= k <= i implies note_views(notes@)[k] == want.subrange(0, i + 1)[k] by {
                if k < i {
                    assert(notes@[k] == prev[k]);
                    assert(note_views(prev)[k] == want.subrange(0, i as int)[k]);
                }
            }
            assert(note_views(notes@) =~= want.subrange(0, i + 1));
        }
        i = i + 1;
    }
    proof {
        assert(want.subrange(0, i as int) =~= want);
    }
    Ok(notes)
}

/// The document for the notes in the JSON array `notes_json`, exported now;
/// `Parse` when the text is not a JSON array, `Clock` when the clock gives no
/// time that can be written.
pub fn export_all_notes_to_markdown(notes_json: &str) -> (r: Result<String, TransferError>)
    ensures
        json_array_length(notes_json@) is None <==> (r is Err && r->Err_0 is Parse),
        r is Err ==> r->Err_0 is Parse || r->Err_0 is Clock,
        r is Ok ==> exists|stamp: Seq<char>|
            clock_text(stamp, DISPLAY_STAMP_FORMAT@) && r->Ok_0@ == collection_doc(
                json_notes(notes_json@),
                stamp,
            ),
{
    let notes = decode_notes(notes_json)?;
    match utc_now_text(DISPLAY_STAMP_FORMAT) {
        None => Err(TransferError::Clock),
        Some(stamp) => {
            let r = notes_markdown(&notes, stamp.as_str());
            assert(clock_text(stamp@, DISPLAY_STAMP_FORMAT@) && r@ == collection_doc(
                json_notes(notes_json@),
                stamp@,
            ));
            Ok(r)
        },
    }
}

} // verus!
