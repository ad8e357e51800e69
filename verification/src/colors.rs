//! Colours chosen at run time, by page and number, and the file they are kept in.
//!
//! The file is a JSON object with one member per colour. The member's name is
//! `page:number` in decimal, its value the palette colour.

use std::collections::HashMap;

use vstd::prelude::*;
use vstd::string::*;

use crate::text::{
    all_digits, append_decimal, characters, decimal, is_digit, law_decimal_reads_back, parse_number,
    read_number, replace_all, replaced,
};

verus! {

/// The members of a colours file, in some order.
pub type ColorsFile = Vec<(String, u8)>;

/// What a list of entries maps each key to; a later entry replaces an earlier one.
pub open spec fn entries_map(entries: Seq<((usize, u8), u8)>) -> Map<(usize, u8), u8>
    decreases entries.len(),
{
    if entries.len() == 0 {
        Map::empty()
    } else {
        entries_map(entries.drop_last()).insert(entries.last().0, entries.last().1)
    }
}

/// No key occurs twice.
pub open spec fn entries_distinct(entries: Seq<((usize, u8), u8)>) -> bool {
    forall|i: int, j: int|
        0 <= i < j < entries.len() ==> (#[trigger] entries[i]).0 != (#[trigger] entries[j]).0
}

/// Palette colours by page and number.
#[derive(Clone, Debug)]
pub struct ColorMap {
    /// Key and colour, each key at most once.
    pub entries: Vec<((usize, u8), u8)>,
}

impl View for ColorMap {
    type V = Map<(usize, u8), u8>;

    open spec fn view(&self) -> Map<(usize, u8), u8> {
        entries_map(self.entries@)
    }
}

/// An entry is found under its key.
proof fn lemma_entry(entries: Seq<((usize, u8), u8)>, i: int)
    requires
        entries_distinct(entries),
        0 <= i < entries.len(),
    ensures
        entries_map(entries).contains_key(entries[i].0),
        entries_map(entries)[entries[i].0] == entries[i].1,
    decreases entries.len(),
{
    if i < entries.len() - 1 {
        assert(entries.drop_last()[i] == entries[i]);
        lemma_entry(entries.drop_last(), i);
    }
}

/// A key that is found belongs to an entry.
proof fn lemma_key(entries: Seq<((usize, u8), u8)>, key: (usize, u8)) -> (i: int)
    requires
        entries_map(entries).contains_key(key),
    ensures
        0 <= i < entries.len(),
        entries[i].0 == key,
    decreases entries.len(),
{
    if entries.last().0 == key {
        entries.len() - 1
    } else {
        lemma_key(entries.drop_last(), key)
    }
}

impl ColorMap {
    /// Each key has one entry.
    pub open spec fn wf(self) -> bool {
        entries_distinct(self.entries@)
    }

    /// A map without colours.
    pub fn new() -> (map: ColorMap)
        ensures
            map.wf(),
            map@ == Map::<(usize, u8), u8>::empty(),
    {
        ColorMap { entries: Vec::new() }
    }

    /// The number of colours.
    pub fn len(&self) -> (n: usize)
        requires
            self.wf(),
        ensures
            n == self@.len(),
            self@.dom().finite(),
    {
        proof {
            lemma_entries_len(self.entries@);
        }
        self.entries.len()
    }

    /// The colour of a number on a page.
    pub fn get(&self, page: usize, number: u8) -> (color: Option<u8>)
        requires
            self.wf(),
        ensures
            color == (if self@.contains_key((page, number)) {
                Some(self@[(page, number)])
            } else {
                None
            }),
    {
        let mut i: usize = 0;
        while i < self.entries.len()
            invariant
                i <= self.entries@.len(),
                self.wf(),
                forall|j: int| 0 <= j < i ==> (#[trigger] self.entries@[j]).0 != (page, number),
            decreases self.entries@.len() - i,
        {
            let ((p, n), color) = self.entries[i];
            if p == page && n == number {
                proof {
                    lemma_entry(self.entries@, i as int);
                }
                return Some(color);
            }
            i = i + 1;
        }
        proof {
            if self@.contains_key((page, number)) {
                let j = lemma_key(self.entries@, (page, number));
                assert(self.entries@[j].0 != (page, number));
            }
        }
        None
    }

    /// Sets the colour of a number on a page.
    pub fn insert(&mut self, page: usize, number: u8, color: u8)
        requires
            old(self).wf(),
        ensures
            final(self).wf(),
            final(self)@ == old(self)@.insert((page, number), color),
    {
        let ghost before = self.entries@;
        let ghost key = (page, number);
        let mut i: usize = 0;
        while i < self.entries.len()
            invariant
                i <= self.entries@.len(),
                self.entries@ == before,
                before == old(self).entries@,
                entries_distinct(before),
                key == (page, number),
                forall|j: int| 0 <= j < i ==> (#[trigger] before[j]).0 != key,
            decreases self.entries@.len() - i,
        {
            let ((p, n), _) = self.entries[i];
            if p == page && n == number {
                self.entries.set(i, ((page, number), color));
                proof {
                    lemma_replace(before, i as int, color);
                }
                return;
            }
            i = i + 1;
        }
        self.entries.push(((page, number), color));
        assert(self.entries@.drop_last() =~= before);
    }
}

/// Replacing an entry's colour replaces what its key maps to.
proof fn lemma_replace(entries: Seq<((usize, u8), u8)>, i: int, color: u8)
    requires
        entries_distinct(entries),
        0 <= i < entries.len(),
    ensures
        entries_distinct(entries.update(i, (entries[i].0, color))),
        entries_map(entries.update(i, (entries[i].0, color))) == entries_map(entries).insert(
            entries[i].0,
            color,
        ),
    decreases entries.len(),
{
    let key = entries[i].0;
    let after = entries.update(i, (key, color));
    if i == entries.len() - 1 {
        assert(after.drop_last() =~= entries.drop_last());
        assert(entries_map(after) =~= entries_map(entries).insert(key, color));
    } else {
        let shorter = entries.drop_last();
        lemma_replace(shorter, i, color);
        assert(after.drop_last() =~= shorter.update(i, (key, color)));
        assert(entries.last().0 != key);
        assert(entries_map(after) =~= entries_map(entries).insert(key, color));
    }
}

/// With distinct keys there are as many keys as entries.
proof fn lemma_entries_len(entries: Seq<((usize, u8), u8)>)
    requires
        entries_distinct(entries),
    ensures
        entries_map(entries).dom().finite(),
        entries_map(entries).len() == entries.len(),
    decreases entries.len(),
{
    if entries.len() > 0 {
        let shorter = entries.drop_last();
        lemma_entries_len(shorter);
        if entries_map(shorter).contains_key(entries.last().0) {
            let j = lemma_key(shorter, entries.last().0);
            assert(entries[j].0 == entries.last().0);
        }
    }
}

/// The position of the first colon; the length of the text where there is none.
pub open spec fn first_colon(s: Seq<char>) -> int
    decreases s.len(),
{
    if s.len() == 0 || s[0] == ':' {
        0
    } else {
        1 + first_colon(s.skip(1))
    }
}

/// The name of the member that holds a colour.
pub open spec fn key_text(key: (usize, u8)) -> Seq<char> {
    decimal(key.0 as nat) + seq![':'] + decimal(key.1 as nat)
}

/// The key that a member's name stands for: two numbers around the first colon.
pub open spec fn read_key(text: Seq<char>) -> Option<(usize, u8)> {
    let at = first_colon(text);
    if at < text.len() {
        match (
            read_number(text.take(at), usize::MAX as int),
            read_number(text.skip(at + 1), u8::MAX as int),
        ) {
            (Some(page), Some(number)) => Some((page as usize, number as u8)),
            _ => None,
        }
    } else {
        None
    }
}

/// The members of a file as a map; a later member replaces an earlier one.
pub open spec fn file_map(file: Seq<(String, u8)>) -> Map<Seq<char>, u8>
    decreases file.len(),
{
    if file.len() == 0 {
        Map::empty()
    } else {
        file_map(file.drop_last()).insert(file.last().0@, file.last().1)
    }
}

/// No two members have the same name.
pub open spec fn file_distinct(file: Seq<(String, u8)>) -> bool {
    forall|i: int, j: int|
        0 <= i < j < file.len() ==> (#[trigger] file[i]).0@ != (#[trigger] file[j]).0@
}

/// The colours that the members of a file give, in order. Members whose names
/// are no keys are passed over.
pub open spec fn colors_of(file: Seq<(String, u8)>) -> Map<(usize, u8), u8>
    decreases file.len(),
{
    if file.len() == 0 {
        Map::empty()
    } else {
        let earlier = colors_of(file.drop_last());
        match read_key(file.last().0@) {
            Some(key) => earlier.insert(key, file.last().1),
            None => earlier,
        }
    }
}

/// The members that hold these colours.
pub open spec fn saved(colors: Map<(usize, u8), u8>) -> Map<Seq<char>, u8> {
    Map::new(
        |text: Seq<char>|
            read_key(text) matches Some(key) && text == key_text(key) && colors.contains_key(key),
        |text: Seq<char>| colors[read_key(text)->0],
    )
}

/// `colors` can be read from these members, in whatever order they come: every
/// key that some name stands for has the colour of one such member, and there
/// are no other keys.
pub open spec fn reads_as(file: Map<Seq<char>, u8>, colors: Map<(usize, u8), u8>) -> bool {
    &&& forall|key: (usize, u8)| #[trigger]
        colors.contains_key(key) ==> exists|text: Seq<char>|
            {
                &&& #[trigger] file.contains_key(text)
                &&& read_key(text) == Some(key)
                &&& file[text] == colors[key]
            }
    &&& forall|text: Seq<char>| #[trigger]
        file.contains_key(text) ==> (read_key(text) matches Some(key) ==> colors.contains_key(key))
}

/// The first colon of a text whose front part holds none.
proof fn lemma_first_colon(front: Seq<char>, back: Seq<char>)
    requires
        all_digits(front),
    ensures
        first_colon(front + seq![':'] + back) == front.len(),
    decreases front.len(),
{
    let s = front + seq![':'] + back;
    if front.len() > 0 {
        assert(is_digit(front[0]));
        assert(s[0] == front[0]);
        assert forall|i: int| 0 <= i < front.skip(1).len() implies is_digit(
            #[trigger] front.skip(1)[i],
        ) by {
            assert(is_digit(front[i + 1]));
        }
        lemma_first_colon(front.skip(1), back);
        assert(s.skip(1) =~= front.skip(1) + seq![':'] + back);
    }
}

/// The name of a member stands for the key that it was written for.
pub proof fn law_key_reads_back(key: (usize, u8))
    ensures
        read_key(key_text(key)) == Some(key),
{
    let front = decimal(key.0 as nat);
    let back = decimal(key.1 as nat);
    let s = key_text(key);
    law_decimal_reads_back(key.0 as nat, usize::MAX as int);
    law_decimal_reads_back(key.1 as nat, u8::MAX as int);
    lemma_first_colon(front, back);
    assert(s.take(front.len() as int) =~= front);
    assert(s.skip((front.len() + 1) as int) =~= back);
}

/// Colours that are saved and read again are the same, in whatever order the
/// members of the file come back.
pub proof fn law_saved_colors_read_back(
    colors: Map<(usize, u8), u8>,
    again: Map<(usize, u8), u8>,
)
    requires
        reads_as(saved(colors), again),
    ensures
        again == colors,
{
    assert forall|key: (usize, u8)| colors.contains_key(key) implies again.contains_key(key) by {
        law_key_reads_back(key);
        assert(saved(colors).contains_key(key_text(key)));
    }
    assert forall|key: (usize, u8)| again.contains_key(key) implies colors.contains_key(key)
        && colors[key] == again[key] by {
        let text = choose|text: Seq<char>|
            {
                &&& #[trigger] saved(colors).contains_key(text)
                &&& read_key(text) == Some(key)
                &&& saved(colors)[text] == again[key]
            };
        assert(saved(colors).contains_key(text));
    }
    assert(again =~= colors);
}

/// Colours can be read from the file that they are saved in.
pub proof fn law_saved_colors_are_readable(colors: Map<(usize, u8), u8>)
    ensures
        reads_as(saved(colors), colors),
{
    assert forall|key: (usize, u8)| #[trigger] colors.contains_key(key) implies exists|
        text: Seq<char>,
    |
        {
            &&& #[trigger] saved(colors).contains_key(text)
            &&& read_key(text) == Some(key)
            &&& saved(colors)[text] == colors[key]
        } by {
        law_key_reads_back(key);
        assert(saved(colors).contains_key(key_text(key)));
    }
}

/// Reading members one by one is reading them in some order.
proof fn lemma_colors_of(file: Seq<(String, u8)>)
    requires
        file_distinct(file),
    ensures
        reads_as(file_map(file), colors_of(file)),
    decreases file.len(),
{
    if file.len() > 0 {
        let shorter = file.drop_last();
        let name = file.last().0@;
        let color = file.last().1;
        lemma_colors_of(shorter);
        lemma_name_is_new(file);
        let members = file_map(file);
        let colors = colors_of(file);
        assert forall|key: (usize, u8)| #[trigger] colors.contains_key(key) implies exists|
            text: Seq<char>,
        |
            {
                &&& #[trigger] members.contains_key(text)
                &&& read_key(text) == Some(key)
                &&& members[text] == colors[key]
            } by {
            if read_key(name) == Some(key) {
                assert(members.contains_key(name));
            } else {
                assert(colors_of(shorter).contains_key(key));
                let text = choose|text: Seq<char>|
                    {
                        &&& #[trigger] file_map(shorter).contains_key(text)
                        &&& read_key(text) == Some(key)
                        &&& file_map(shorter)[text] == colors_of(shorter)[key]
                    };
                assert(members.contains_key(text));
            }
        }
        assert forall|text: Seq<char>| #[trigger] members.contains_key(text) implies (read_key(
            text,
        ) matches Some(key) ==> colors.contains_key(key)) by {
            if text != name {
                assert(file_map(shorter).contains_key(text));
            }
        }
    }
}

/// The last name of a file without repeated names does not occur before.
proof fn lemma_name_is_new(file: Seq<(String, u8)>)
    requires
        file_distinct(file),
        file.len() > 0,
    ensures
        !file_map(file.drop_last()).contains_key(file.last().0@),
{
    if file_map(file.drop_last()).contains_key(file.last().0@) {
        let i = lemma_name(file.drop_last(), file.last().0@);
        assert(file[i].0@ == file.last().0@);
    }
}

/// A name that a file maps belongs to a member.
proof fn lemma_name(file: Seq<(String, u8)>, name: Seq<char>) -> (i: int)
    requires
        file_map(file).contains_key(name),
    ensures
        0 <= i < file.len(),
        file[i].0@ == name,
    decreases file.len(),
{
    if file.last().0@ == name {
        file.len() - 1
    } else {
        lemma_name(file.drop_last(), name)
    }
}

/// One more entry, one more member.
proof fn lemma_saved_insert(colors: Map<(usize, u8), u8>, key: (usize, u8), color: u8)
    ensures
        saved(colors.insert(key, color)) == saved(colors).insert(key_text(key), color),
{
    law_key_reads_back(key);
    assert(saved(colors.insert(key, color)) =~= saved(colors).insert(key_text(key), color));
}

/// The members of a file that holds these colours.
pub fn colors_to_file(map: &ColorMap) -> (file: ColorsFile)
    requires
        map.wf(),
    ensures
        file_distinct(file@),
        file_map(file@) == saved(map@),
{
    let mut file: ColorsFile = Vec::new();
    let mut i: usize = 0;
    assert(map.entries@.take(0) =~= Seq::empty());
    assert(file_map(file@) =~= saved(entries_map(map.entries@.take(0))));
    while i < map.entries.len()
        invariant
            i <= map.entries@.len(),
            map.wf(),
            file@.len() == i,
            forall|j: int| 0 <= j < i ==> (#[trigger] file@[j]).0@ == key_text(map.entries@[j].0),
            file_map(file@) == saved(entries_map(map.entries@.take(i as int))),
        decreases map.entries@.len() - i,
    {
        let ((page, number), color) = map.entries[i];
        let mut name = String::new();
        append_decimal(&mut name, page as u64);
        name.append(":");
        append_decimal(&mut name, number as u64);
        proof {
            reveal_strlit(":");
            assert(name@ =~= key_text((page, number)));
            let shorter = map.entries@.take(i as int);
            let longer = map.entries@.take(i + 1);
            assert(longer.drop_last() =~= shorter);
            lemma_saved_insert(entries_map(shorter), (page, number), color);
        }
        let ghost before = file@;
        file.push((name, color));
        assert(file@.drop_last() =~= before);
        i = i + 1;
    }
    proof {
        assert(map.entries@.take(i as int) =~= map.entries@);
        assert forall|a: int, b: int| 0 <= a < b < file@.len() implies (#[trigger] file@[a]).0@ != (
        #[trigger] file@[b]).0@ by {
            law_key_reads_back(map.entries@[a].0);
            law_key_reads_back(map.entries@[b].0);
        }
    }
    file
}

/// The position of the first colon.
fn find_colon(chars: &Vec<char>) -> (at: usize)
    ensures
        at == first_colon(chars@),
        at <= chars@.len(),
{
    let mut i: usize = 0;
    assert(chars@.skip(0) =~= chars@);
    while i < chars.len()
        invariant
            i <= chars@.len(),
            first_colon(chars@) == i + first_colon(chars@.skip(i as int)),
        decreases chars@.len() - i,
    {
        assert(chars@.skip(i as int)[0] == chars@[i as int]);
        if chars[i] == ':' {
            return i;
        }
        assert(chars@.skip(i as int).skip(1) =~= chars@.skip(i + 1));
        i = i + 1;
    }
    i
}

/// The key that a member's name stands for.
pub fn parse_key(name: &str) -> (key: Option<(usize, u8)>)
    ensures
        key == read_key(name@),
{
    let chars = characters(name);
    let at = find_colon(&chars);
    if at >= chars.len() {
        return None;
    }
    assert(chars@.subrange(0, at as int) =~= chars@.take(at as int));
    assert(chars@.subrange(at + 1, chars@.len() as int) =~= chars@.skip(at + 1));
    let page = parse_number(&chars, 0, at, usize::MAX as u64);
    let number = parse_number(&chars, at + 1, chars.len(), u8::MAX as u64);
    match (page, number) {
        (Some(p), Some(n)) => Some((p as usize, n as u8)),
        _ => None,
    }
}

/// The colours that the members of a file give, in order.
pub fn colors_from_file(file: ColorsFile) -> (map: ColorMap)
    ensures
        map.wf(),
        map@ == colors_of(file@),
{
    let mut map = ColorMap::new();
    let mut i: usize = 0;
    assert(file@.take(0) =~= Seq::empty());
    while i < file.len()
        invariant
            i <= file@.len(),
            map.wf(),
            map@ == colors_of(file@.take(i as int)),
        decreases file@.len() - i,
    {
        assert(file@.take(i + 1).drop_last() =~= file@.take(i as int));
        let color: u8 = file[i].1;
        if let Some((page, number)) = parse_key(file[i].0.as_str()) {
            map.insert(page, number, color);
        }
        i = i + 1;
    }
    assert(file@.take(i as int) =~= file@);
    map
}

/// The object of names and palette colours that a JSON text holds; `None` for a
/// text that holds no such object.
pub uninterp spec fn parsed_colors(text: Seq<char>) -> Option<Map<Seq<char>, u8>>;

/// An error of the JSON library.
#[verifier::external_type_specification]
#[verifier::external_body]
pub struct ExJsonError(serde_json::Error);

/// Why colours could not be saved.
pub enum ColorsError {
    /// The JSON text could not be made.
    Encode,
}

/// Calls `serde_json::from_str` for a map of names and bytes. It succeeds
/// exactly on the texts that hold such an object, and gives the object's
/// members, each name once, in no particular order.
#[verifier::external_body]
fn read_json(text: &str) -> (file: Result<ColorsFile, serde_json::Error>)
    ensures
        match file {
            Ok(members) => file_distinct(members@) && parsed_colors(text@) == Some(
                file_map(members@),
            ),
            Err(_) => parsed_colors(text@) is None,
        },
{
    serde_json::from_str::<HashMap<String, u8>>(text).map(|map| map.into_iter().collect())
}

/// Calls `serde_json::to_string_pretty` on a map of names and bytes, each name
/// once. It succeeds, since such a map has text keys and the text is made in
/// memory, and parsing the text gives the map back. The order of the members is
/// not stated.
#[verifier::external_body]
fn write_json(file: &ColorsFile) -> (text: Result<String, serde_json::Error>)
    requires
        file_distinct(file@),
    ensures
        text is Ok,
        parsed_colors(text->Ok_0@) == Some(file_map(file@)),
{
    serde_json::to_string_pretty(&file.iter().cloned().collect::<HashMap<String, u8>>())
}

/// The text of the file that these colours are saved in.
pub fn colors_to_json(map: &ColorMap) -> (text: Result<String, ColorsError>)
    requires
        map.wf(),
    ensures
        text is Ok,
        parsed_colors(text->Ok_0@) == Some(saved(map@)),
{
    let file = colors_to_file(map);
    match write_json(&file) {
        Ok(text) => Ok(text),
        Err(_) => Err(ColorsError::Encode),
    }
}

/// The colours in the text of a file; none where the text cannot be read.
pub fn colors_from_json(text: &str) -> (map: ColorMap)
    ensures
        map.wf(),
        match parsed_colors(text@) {
            Some(file) => reads_as(file, map@),
            None => map@ == Map::<(usize, u8), u8>::empty(),
        },
{
    match read_json(text) {
        Ok(file) => {
            proof {
                lemma_colors_of(file@);
            }
            colors_from_file(file)
        },
        Err(_) => ColorMap::new(),
    }
}

/// Where the fader colours are kept: beside the colours of the custom pages,
/// under another name.
pub fn fader_colors_path(colors_path: &str) -> (path: String)
    ensures
        path@ == replaced(colors_path@, "custom_colors.json"@, "fader_colors.json"@),
{
    proof {
        reveal_strlit("custom_colors.json");
    }
    replace_all(colors_path, "custom_colors.json", "fader_colors.json")
}

/// A name stands for a key where a page and a number stand before and after its first
/// colon. A name without a colon stands for none.
pub proof fn law_key(front: Seq<char>, back: Seq<char>)
    requires
        forall|i: int| 0 <= i < front.len() ==> #[trigger] front[i] != ':',
    ensures
        read_key(front) is None,
        read_key(front + seq![':'] + back) == (match (
            read_number(front, usize::MAX as int),
            read_number(back, 255),
        ) {
            (Some(page), Some(number)) => Some((page as usize, number as u8)),
            _ => None,
        }),
{
    let s = front + seq![':'] + back;
    lemma_no_colon(front, back);
    assert(s.take(front.len() as int) =~= front);
    assert(s.skip((front.len() + 1) as int) =~= back);
}

/// The first colon of a text is behind a front part that holds none.
proof fn lemma_no_colon(front: Seq<char>, back: Seq<char>)
    requires
        forall|i: int| 0 <= i < front.len() ==> #[trigger] front[i] != ':',
    ensures
        first_colon(front) == front.len(),
        first_colon(front + seq![':'] + back) == front.len(),
    decreases front.len(),
{
    let s = front + seq![':'] + back;
    if front.len() > 0 {
        let rest = front.skip(1);
        assert forall|i: int| 0 <= i < rest.len() implies #[trigger] rest[i] != ':' by {
            assert(rest[i] == front[i + 1]);
        }
        lemma_no_colon(rest, back);
        assert(s[0] == front[0]);
        assert(s.skip(1) =~= rest + seq![':'] + back);
    }
}

/// The file has a member for every colour and no other: the page and the number in
/// decimal with a colon between them, and the colour as it is.
pub proof fn law_saved(colors: Map<(usize, u8), u8>, page: usize, number: u8, text: Seq<char>)
    ensures
        ({
            let name = decimal(page as nat) + seq![':'] + decimal(number as nat);
            &&& saved(colors).contains_key(name) <==> colors.contains_key((page, number))
            &&& colors.contains_key((page, number)) ==> saved(colors)[name] == colors[(page, number)]
        }),
        saved(colors).contains_key(text) ==> exists|key: (usize, u8)|
            #![trigger colors.contains_key(key)]
            colors.contains_key(key) && text == decimal(key.0 as nat) + seq![':'] + decimal(
                key.1 as nat,
            ),
{
    law_key_reads_back((page, number));
    if saved(colors).contains_key(text) {
        let key = read_key(text)->0;
        assert(colors.contains_key(key));
    }
}

/// Of the members of a file that stand for a key the last one gives its colour, and a key
/// that no member stands for has none.
pub proof fn law_last_member_counts(file: Seq<(String, u8)>, key: (usize, u8))
    ensures
        colors_of(file).contains_key(key) <==> exists|i: int|
            0 <= i < file.len() && read_key((#[trigger] file[i]).0@) == Some(key),
        forall|i: int|
            0 <= i < file.len() && read_key((#[trigger] file[i]).0@) == Some(key) && (forall|j: int|
                i < j < file.len() ==> read_key((#[trigger] file[j]).0@) != Some(key))
                ==> colors_of(file)[key] == file[i].1,
    decreases file.len(),
{
    if file.len() > 0 {
        let shorter = file.drop_last();
        law_last_member_counts(shorter, key);
        assert(forall|i: int| 0 <= i < shorter.len() ==> #[trigger] shorter[i] == file[i]);
        assert(file[file.len() - 1] == file.last());
        if colors_of(file).contains_key(key) && read_key(file.last().0@) != Some(key) {
            let i = choose|i: int|
                0 <= i < shorter.len() && read_key((#[trigger] shorter[i]).0@) == Some(key);
            assert(read_key(file[i].0@) == Some(key));
        }
        assert forall|i: int|
            0 <= i < file.len() && read_key((#[trigger] file[i]).0@) == Some(key) && (forall|j: int|
                i < j < file.len() ==> read_key((#[trigger] file[j]).0@) != Some(key)) implies
            colors_of(file)[key] == file[i].1 by {
            if i < shorter.len() {
                assert(read_key(file[file.len() - 1].0@) != Some(key));
                assert(shorter[i] == file[i]);
                assert forall|j: int| i < j < shorter.len() implies read_key(
                    (#[trigger] shorter[j]).0@,
                ) != Some(key) by {
                    assert(shorter[j] == file[j]);
                }
            }
        }
        assert forall|i: int|
            0 <= i < file.len() && read_key((#[trigger] file[i]).0@) == Some(key) implies colors_of(
            file,
        ).contains_key(key) by {
            if i < shorter.len() {
                assert(shorter[i] == file[i]);
            }
        }
    }
}

/// Colours that are read from a file come from its members, each key from a member that
/// stands for it, and no member that stands for a key is passed over.
pub proof fn law_reading_colors(
    file: Map<Seq<char>, u8>,
    colors: Map<(usize, u8), u8>,
    key: (usize, u8),
    text: Seq<char>,
)
    requires
        reads_as(file, colors),
    ensures
        colors.contains_key(key) ==> exists|name: Seq<char>|
            #![trigger file.contains_key(name)]
            file.contains_key(name) && read_key(name) == Some(key) && file[name] == colors[key],
        file.contains_key(text) && read_key(text) == Some(key) ==> colors.contains_key(key),
{
}

/// The map of a file without repeated names gives every member under its name.
pub proof fn law_file_map(file: Seq<(String, u8)>, i: int, name: Seq<char>)
    requires
        file_distinct(file),
        0 <= i < file.len(),
    ensures
        file_map(file).contains_key(file[i].0@),
        file_map(file)[file[i].0@] == file[i].1,
        file_map(file).contains_key(name) ==> exists|j: int|
            0 <= j < file.len() && (#[trigger] file[j]).0@ == name,
    decreases file.len(),
{
    let shorter = file.drop_last();
    if i < shorter.len() {
        assert(shorter[i] == file[i]);
        law_file_map(shorter, i, name);
    }
    if file_map(file).contains_key(name) {
        let j = lemma_name(file, name);
        assert(file[j].0@ == name);
    }
}

} // verus!
