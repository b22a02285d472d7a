//! Reading what the listing tool prints about the containers that exist.

use vstd::prelude::*;
use vstd::string::StringExecFns;
use crate::distro::{box_views, opt_view, Capture, CaptureView, DistroBox, DistroBoxView};
use crate::text::{
    begins_with, contains, eq_ignore_case, from_chars, has_char, includes, includes_char, lines,
    same_ignoring_case, skip_whitespace, split, split_lines, split_on, split_words, starts_with,
    to_chars, tokens, trim, trim_start, trimmed, views,
};

verus! {

/// Whether `s` is made of rule characters only, `-` and `+`.
pub open spec fn only_rules(s: Seq<char>) -> bool {
    forall|j: int| 0 <= j < s.len() ==> (#[trigger] s[j] == '-' || s[j] == '+')
}

/// The columns of a table row: what stands between the bars, trimmed.
pub open spec fn columns(t: Seq<char>) -> Seq<Seq<char>> {
    Seq::new(split(t, '|').len(), |i: int| trim(split(t, '|')[i]))
}

/// Whether some item of `cols` is `word`, whatever its case.
pub open spec fn has_word(cols: Seq<Seq<char>>, word: Seq<char>) -> bool {
    exists|i: int| 0 <= i < cols.len() && eq_ignore_case(#[trigger] cols[i], word)
}

/// Whether every item of `cols` is made of rule characters only.
pub open spec fn all_rules(cols: Seq<Seq<char>>) -> bool {
    forall|i: int| 0 <= i < cols.len() ==> only_rules(#[trigger] cols[i])
}

/// The item of `s` at index `i`, where there is one.
pub open spec fn item_at(s: Seq<Seq<char>>, i: int) -> Option<Seq<char>> {
    if 0 <= i < s.len() {
        Some(s[i])
    } else {
        None
    }
}

/// A container of which only the name and perhaps the image are known.
pub open spec fn plain_box(name: Seq<char>, image: Option<Seq<char>>) -> DistroBoxView {
    DistroBoxView { name, image, runtime: "unknown"@ }
}

/// What one line of a table says.
pub enum Row {
    /// Nothing.
    Skip,
    /// It is the heading of a table with bars.
    Heading,
    /// It describes a container.
    Entry(DistroBoxView),
}

/// What a row with bars says: the heading names both `ID` and `NAME`; a row
/// of rules says nothing; else the second column is the name and the fourth
/// the image. `None` where the line has fewer than two columns.
pub open spec fn barred_row(t: Seq<char>) -> Option<Row> {
    let cols = columns(t);
    if has_word(cols, "NAME"@) && has_word(cols, "ID"@) {
        Some(Row::Heading)
    } else if all_rules(cols) {
        Some(Row::Skip)
    } else if cols.len() >= 2 {
        if cols[1].len() == 0 || eq_ignore_case(cols[1], "NAME"@) {
            Some(Row::Skip)
        } else {
            Some(Row::Entry(plain_box(cols[1], item_at(cols, 3))))
        }
    } else {
        None
    }
}

/// What a row of words says. Headings and rules say nothing. After a
/// heading with bars a first word of six characters or more is taken for an
/// identifier, with the name behind it; else the first word is the name.
pub open spec fn spaced_row(t: Seq<char>, after_heading: bool) -> Row {
    if starts_with(t, "NAME"@) || starts_with(t, "+---"@) || contains(t, "CONTAINER ID"@)
        || eq_ignore_case(t, "id"@) {
        Row::Skip
    } else {
        let parts = tokens(t);
        if parts.len() == 0 {
            Row::Skip
        } else if after_heading && parts[0].len() >= 6 && parts.len() >= 2 {
            Row::Entry(plain_box(parts[1], item_at(parts, 3)))
        } else if eq_ignore_case(parts[0], "NAME"@) || eq_ignore_case(parts[0], "Created"@) {
            Row::Skip
        } else {
            Row::Entry(plain_box(parts[0], item_at(parts, 1)))
        }
    }
}

/// What the trimmed line `t` says, given whether a heading with bars came
/// before it.
pub open spec fn row(t: Seq<char>, after_heading: bool) -> Row {
    if t.len() == 0 {
        Row::Skip
    } else if has_char(t, '|') && barred_row(t) is Some {
        barred_row(t)->0
    } else {
        spaced_row(t, after_heading)
    }
}

/// The containers that the lines `ls` describe, and whether a heading with
/// bars was among them.
pub open spec fn rows(ls: Seq<Seq<char>>) -> (Seq<DistroBoxView>, bool)
    decreases ls.len(),
{
    if ls.len() == 0 {
        (Seq::empty(), false)
    } else {
        let (found, heading) = rows(ls.drop_last());
        match row(trim(ls.last()), heading) {
            Row::Skip => (found, heading),
            Row::Heading => (found, true),
            Row::Entry(b) => (found.push(b), heading),
        }
    }
}

/// The containers that the plain listing `s` describes.
pub open spec fn plain_listing(s: Seq<char>) -> Seq<DistroBoxView> {
    rows(lines(s)).0
}

fn is_rule(s: &[char]) -> (b: bool)
    ensures
        b == only_rules(s@),
{
    let mut j: usize = 0;
    while j < s.len()
        invariant
            j <= s.len(),
            forall|k: int| 0 <= k < j ==> (#[trigger] s@[k] == '-' || s@[k] == '+'),
        decreases s.len() - j,
    {
        if s[j] != '-' && s[j] != '+' {
            return false;
        }
        j += 1;
    }
    true
}

fn any_word(cols: &Vec<Vec<char>>, word: &str) -> (b: bool)
    ensures
        b == has_word(views(cols@), word@),
{
    let w = to_chars(word);
    let mut i: usize = 0;
    while i < cols.len()
        invariant
            i <= cols.len(),
            w@ == word@,
            forall|k: int| 0 <= k < i ==> !eq_ignore_case(#[trigger] views(cols@)[k], word@),
        decreases cols.len() - i,
    {
        assert(views(cols@)[i as int] == cols@[i as int]@);
        if same_ignoring_case(cols[i].as_slice(), w.as_slice()) {
            return true;
        }
        i += 1;
    }
    false
}

fn every_rule(cols: &Vec<Vec<char>>) -> (b: bool)
    ensures
        b == all_rules(views(cols@)),
{
    let mut i: usize = 0;
    while i < cols.len()
        invariant
            i <= cols.len(),
            forall|k: int| 0 <= k < i ==> only_rules(#[trigger] views(cols@)[k]),
        decreases cols.len() - i,
    {
        assert(views(cols@)[i as int] == cols@[i as int]@);
        if !is_rule(cols[i].as_slice()) {
            return false;
        }
        i += 1;
    }
    true
}

fn text_at(s: &Vec<Vec<char>>, i: usize) -> (r: Option<String>)
    ensures
        opt_view(r) == item_at(views(s@), i as int),
{
    if i < s.len() {
        assert(views(s@)[i as int] == s@[i as int]@);
        Some(from_chars(s[i].as_slice()))
    } else {
        None
    }
}

fn make_box(name: &Vec<char>, image: Option<String>) -> (b: DistroBox)
    ensures
        b@ == plain_box(name@, opt_view(image)),
{
    DistroBox { name: from_chars(name.as_slice()), image, runtime: String::from_str("unknown") }
}

fn trimmed_columns(t: &[char]) -> (cols: Vec<Vec<char>>)
    ensures
        views(cols@) == columns(t@),
{
    let raw = split_on(t, '|');
    let mut cols: Vec<Vec<char>> = Vec::new();
    let mut i: usize = 0;
    while i < raw.len()
        invariant
            i <= raw.len(),
            views(raw@) == split(t@, '|'),
            cols@.len() == i,
            forall|k: int| 0 <= k < i ==> cols@[k]@ == trim(split(t@, '|')[k]),
        decreases raw.len() - i,
    {
        assert(views(raw@)[i as int] == raw@[i as int]@);
        cols.push(trimmed(raw[i].as_slice()));
        i += 1;
    }
    assert(views(cols@) =~= columns(t@));
    cols
}

/// What a row says, in executable form: `Entry` carries the container.
enum Found {
    Skip,
    Heading,
    Entry(DistroBox),
}

impl Found {
    spec fn row(self) -> Row {
        match self {
            Found::Skip => Row::Skip,
            Found::Heading => Row::Heading,
            Found::Entry(b) => Row::Entry(b@),
        }
    }
}

fn read_barred(t: &[char]) -> (r: Option<Found>)
    ensures
        match r {
            Some(f) => barred_row(t@) == Some(f.row()),
            None => barred_row(t@) is None,
        },
{
    let cols = trimmed_columns(t);
    if any_word(&cols, "NAME") && any_word(&cols, "ID") {
        return Some(Found::Heading);
    }
    if every_rule(&cols) {
        return Some(Found::Skip);
    }
    if cols.len() >= 2 {
        assert(views(cols@)[1] == cols@[1]@);
        if cols[1].len() == 0 || same_ignoring_case(cols[1].as_slice(), to_chars("NAME").as_slice()) {
            return Some(Found::Skip);
        }
        let image = text_at(&cols, 3);
        return Some(Found::Entry(make_box(&cols[1], image)));
    }
    None
}

fn read_spaced(t: &[char], after_heading: bool) -> (r: Found)
    ensures
        r.row() == spaced_row(t@, after_heading),
{
    if begins_with(t, to_chars("NAME").as_slice()) || begins_with(t, to_chars("+---").as_slice())
        || includes(t, to_chars("CONTAINER ID").as_slice()) || same_ignoring_case(
        t,
        to_chars("id").as_slice(),
    ) {
        return Found::Skip;
    }
    let parts = split_words(t);
    if parts.len() == 0 {
        return Found::Skip;
    }
    assert(views(parts@)[0] == parts@[0]@);
    if after_heading && parts[0].len() >= 6 && parts.len() >= 2 {
        assert(views(parts@)[1] == parts@[1]@);
        let image = text_at(&parts, 3);
        return Found::Entry(make_box(&parts[1], image));
    }
    if same_ignoring_case(parts[0].as_slice(), to_chars("NAME").as_slice()) || same_ignoring_case(
        parts[0].as_slice(),
        to_chars("Created").as_slice(),
    ) {
        return Found::Skip;
    }
    let image = text_at(&parts, 1);
    Found::Entry(make_box(&parts[0], image))
}

fn read_row(t: &[char], after_heading: bool) -> (r: Found)
    ensures
        r.row() == row(t@, after_heading),
{
    if t.len() == 0 {
        return Found::Skip;
    }
    if includes_char(t, '|') {
        if let Some(f) = read_barred(t) {
            return f;
        }
    }
    read_spaced(t, after_heading)
}

/// Reads the plain listing of containers: a table with bars, or rows of
/// words as older versions of the tool print them.
pub fn parse_boxes_plain(s: &str) -> (boxes: Vec<DistroBox>)
    ensures
        box_views(boxes@) == plain_listing(s@),
{
    let chars = to_chars(s);
    let ls = split_lines(chars.as_slice());
    let ghost all = lines(s@);
    let mut boxes: Vec<DistroBox> = Vec::new();
    let mut heading = false;
    let mut i: usize = 0;
    assert(box_views(boxes@) =~= rows(all.take(0)).0);
    while i < ls.len()
        invariant
            i <= ls.len(),
            views(ls@) == all,
            box_views(boxes@) == rows(all.take(i as int)).0,
            heading == rows(all.take(i as int)).1,
        decreases ls.len() - i,
    {
        let ghost before = box_views(boxes@);
        assert(all.take(i + 1).drop_last() =~= all.take(i as int));
        assert(all.take(i + 1).last() == ls@[i as int]@);
        let t = trimmed(ls[i].as_slice());
        match read_row(t.as_slice(), heading) {
            Found::Skip => {},
            Found::Heading => {
                heading = true;
            },
            Found::Entry(b) => {
                boxes.push(b);
                assert(box_views(boxes@) =~= before.push(b@));
            },
        }
        i += 1;
    }
    assert(all.take(ls.len() as int) =~= all);
    boxes
}

/// Whether the structured listing is an array rather than an object that
/// holds one: whether its first character other than white space is a
/// bracket.
pub open spec fn is_array_text(s: Seq<char>) -> bool {
    trim_start(s).len() > 0 && trim_start(s)[0] == '['
}

/// Whether the structured listing is an array.
pub fn json_is_array(s: &str) -> (b: bool)
    ensures
        b == is_array_text(s@),
{
    let v = to_chars(s);
    let a = skip_whitespace(v.as_slice(), 0);
    proof {
        assert(trim_start(s@).len() == v.len() - a);
        if a < v.len() {
            assert(trim_start(s@)[0] == v@[a as int]);
        }
    }
    a < v.len() && v[a] == '['
}

/// The container that an entry of the structured listing describes; an
/// entry without an engine has the engine `unknown`.
pub open spec fn json_box(
    name: Seq<char>,
    image: Option<Seq<char>>,
    engine: Option<Seq<char>>,
) -> DistroBoxView {
    DistroBoxView {
        name,
        image,
        runtime: match engine {
            Some(e) => e,
            None => "unknown"@,
        },
    }
}

/// The container that an entry of the structured listing describes.
pub fn box_from_json(name: String, image: Option<String>, engine: Option<String>) -> (b: DistroBox)
    ensures
        b@ == json_box(name@, opt_view(image), opt_view(engine)),
{
    DistroBox {
        name,
        image,
        runtime: match engine {
            Some(e) => e,
            None => String::from_str("unknown"),
        },
    }
}

/// Whether the structured listing is worth reading: the command succeeded
/// and printed more than white space.
pub open spec fn worth_parsing(json: Option<CaptureView>) -> bool {
    json is Some && json->0.success && trim(json->0.stdout).len() > 0
}

/// Whether the structured listing is worth reading.
pub fn json_usable(json: Option<&Capture>) -> (b: bool)
    ensures
        b == worth_parsing(
            match json {
                Some(c) => Some(c@),
                None => None,
            },
        ),
{
    match json {
        Some(c) => c.success && trimmed(to_chars(c.stdout.as_str()).as_slice()).len() > 0,
        None => false,
    }
}

/// The containers that exist, from what the two listings brought: those of
/// the structured listing where it was worth reading and could be read,
/// else those of the plain listing where that command succeeded, else none.
/// That there are no containers, or no tool to list them, is no failure.
pub open spec fn discovered(
    json: Option<CaptureView>,
    parsed: Option<Seq<DistroBoxView>>,
    plain: Option<CaptureView>,
) -> Seq<DistroBoxView> {
    if worth_parsing(json) && parsed is Some {
        parsed->0
    } else if plain is Some && plain->0.success {
        plain_listing(plain->0.stdout)
    } else {
        Seq::empty()
    }
}

/// Tells the containers that exist from what the structured listing left
/// behind, `json`, from the containers read out of it, `parsed`, and from
/// what the plain listing left behind, `plain`; each is `None` where it
/// failed or was not tried.
pub fn discover_boxes(
    json: Option<&Capture>,
    parsed: Option<Vec<DistroBox>>,
    plain: Option<&Capture>,
) -> (boxes: Vec<DistroBox>)
    ensures
        box_views(boxes@) == discovered(
            match json {
                Some(c) => Some(c@),
                None => None,
            },
            match parsed {
                Some(p) => Some(box_views(p@)),
                None => None,
            },
            match plain {
                Some(c) => Some(c@),
                None => None,
            },
        ),
{
    if json_usable(json) {
        if let Some(list) = parsed {
            return list;
        }
    }
    match plain {
        Some(c) => {
            if c.success {
                parse_boxes_plain(c.stdout.as_str())
            } else {
                let empty: Vec<DistroBox> = Vec::new();
                assert(box_views(empty@) =~= Seq::<DistroBoxView>::empty());
                empty
            }
        },
        None => {
            let empty: Vec<DistroBox> = Vec::new();
            assert(box_views(empty@) =~= Seq::<DistroBoxView>::empty());
            empty
        },
    }
}

} // verus!
