//! Nether portal records: the numeric form kept by the client and the text
//! form shown and edited in the user interface, field access by name, and the
//! conversions between the two forms.
use vstd::prelude::*;
use crate::text::{
    concat3, debug_quoted, debug_text, i32_parse_error_text, i32_to_text, int_to_decimal, parsed_i32, parse_i32,
    str_eq,
};

verus! {

/// A field of a portal, as reached through its name.
///
/// The names "ycord" and "zcord" reach each other's coordinate: "ycord" reads
/// and writes the `zcord` field, "zcord" the `ycord` field. Every accessor does
/// the same, so the two forms stay consistent with each other.
pub enum PortalField {
    Xcord,
    Ycord,
    Zcord,
    Locale,
    Owner,
    Notes,
    TrueName,
}

/// The field that a name reaches, if the name is one of the seven field names.
pub open spec fn field_slot(name: Seq<char>) -> Option<PortalField> {
    if name == "xcord"@ {
        Some(PortalField::Xcord)
    } else if name == "ycord"@ {
        Some(PortalField::Zcord)
    } else if name == "zcord"@ {
        Some(PortalField::Ycord)
    } else if name == "locale"@ {
        Some(PortalField::Locale)
    } else if name == "owner"@ {
        Some(PortalField::Owner)
    } else if name == "notes"@ {
        Some(PortalField::Notes)
    } else if name == "true_name"@ {
        Some(PortalField::TrueName)
    } else {
        None
    }
}

/// Whether a field holds a coordinate (a number) rather than text.
pub open spec fn is_number_field(f: PortalField) -> bool {
    f is Xcord || f is Ycord || f is Zcord
}

/// The error text for a field name that no portal has.
pub open spec fn missing_member_message(name: Seq<char>) -> Seq<char> {
    "This struct member: |"@ + name + "| does not exist"@
}

/// The error text for a side name other than "OverWorld" and "Nether".
pub open spec fn unknown_side_message() -> Seq<char> {
    "You have personally summoned `Special Magus Faries` for violating the contract of our forefathers...!"@
}

/// Which side a name selects: `Some(true)` for "OverWorld", `Some(false)` for "Nether".
pub open spec fn side_slot(name: Seq<char>) -> Option<bool> {
    if name == "OverWorld"@ {
        Some(true)
    } else if name == "Nether"@ {
        Some(false)
    } else {
        None
    }
}

/// The mathematical content of a `Portal`.
#[verifier::ext_equal]
pub struct PortalView {
    pub xcord: i32,
    pub ycord: i32,
    pub zcord: i32,
    pub locale: Seq<char>,
    pub owner: Seq<char>,
    pub notes: Seq<char>,
    pub true_name: Seq<char>,
}

/// The mathematical content of a `StringPortal`.
#[verifier::ext_equal]
pub struct StringPortalView {
    pub xcord: Seq<char>,
    pub ycord: Seq<char>,
    pub zcord: Seq<char>,
    pub locale: Seq<char>,
    pub owner: Seq<char>,
    pub notes: Seq<char>,
    pub true_name: Seq<char>,
}

/// The mathematical content of a `NetherPortal`.
#[verifier::ext_equal]
pub struct NetherPortalView {
    pub id: i32,
    pub overworld: PortalView,
    pub nether: PortalView,
    pub username: Seq<char>,
}

/// The mathematical content of a `StringNetherPortal`.
#[verifier::ext_equal]
pub struct StringNetherPortalView {
    pub id: Seq<char>,
    pub overworld: StringPortalView,
    pub nether: StringPortalView,
    pub username: Seq<char>,
}

/// The number held in a coordinate field.
pub open spec fn number_at(p: PortalView, f: PortalField) -> i32 {
    match f {
        PortalField::Xcord => p.xcord,
        PortalField::Ycord => p.ycord,
        PortalField::Zcord => p.zcord,
        _ => 0,
    }
}

/// The text held in a text field.
pub open spec fn text_at(p: PortalView, f: PortalField) -> Seq<char> {
    match f {
        PortalField::Locale => p.locale,
        PortalField::Owner => p.owner,
        PortalField::Notes => p.notes,
        PortalField::TrueName => p.true_name,
        _ => Seq::empty(),
    }
}

/// How a field of a portal reads as text: coordinates in decimal.
pub open spec fn field_text(p: PortalView, f: PortalField) -> Seq<char> {
    if is_number_field(f) {
        int_to_decimal(number_at(p, f) as int)
    } else {
        text_at(p, f)
    }
}

/// The portal with coordinate field `f` set to `v`.
pub open spec fn with_number(p: PortalView, f: PortalField, v: i32) -> PortalView {
    match f {
        PortalField::Xcord => PortalView { xcord: v, ..p },
        PortalField::Ycord => PortalView { ycord: v, ..p },
        PortalField::Zcord => PortalView { zcord: v, ..p },
        _ => p,
    }
}

/// The portal with text field `f` set to `t`.
pub open spec fn with_text(p: PortalView, f: PortalField, t: Seq<char>) -> PortalView {
    match f {
        PortalField::Locale => PortalView { locale: t, ..p },
        PortalField::Owner => PortalView { owner: t, ..p },
        PortalField::Notes => PortalView { notes: t, ..p },
        PortalField::TrueName => PortalView { true_name: t, ..p },
        _ => p,
    }
}

/// The text held in field `f` of a text-form portal.
pub open spec fn string_at(s: StringPortalView, f: PortalField) -> Seq<char> {
    match f {
        PortalField::Xcord => s.xcord,
        PortalField::Ycord => s.ycord,
        PortalField::Zcord => s.zcord,
        PortalField::Locale => s.locale,
        PortalField::Owner => s.owner,
        PortalField::Notes => s.notes,
        PortalField::TrueName => s.true_name,
    }
}

/// The text-form portal with field `f` set to `t`.
pub open spec fn with_string(s: StringPortalView, f: PortalField, t: Seq<char>) -> StringPortalView {
    match f {
        PortalField::Xcord => StringPortalView { xcord: t, ..s },
        PortalField::Ycord => StringPortalView { ycord: t, ..s },
        PortalField::Zcord => StringPortalView { zcord: t, ..s },
        PortalField::Locale => StringPortalView { locale: t, ..s },
        PortalField::Owner => StringPortalView { owner: t, ..s },
        PortalField::Notes => StringPortalView { notes: t, ..s },
        PortalField::TrueName => StringPortalView { true_name: t, ..s },
    }
}

/// The portal whose every field is zero or empty.
pub open spec fn empty_portal() -> PortalView {
    PortalView {
        xcord: 0,
        ycord: 0,
        zcord: 0,
        locale: Seq::empty(),
        owner: Seq::empty(),
        notes: Seq::empty(),
        true_name: Seq::empty(),
    }
}

/// The text-form portal whose every field is empty.
pub open spec fn empty_string_portal() -> StringPortalView {
    StringPortalView {
        xcord: Seq::empty(),
        ycord: Seq::empty(),
        zcord: Seq::empty(),
        locale: Seq::empty(),
        owner: Seq::empty(),
        notes: Seq::empty(),
        true_name: Seq::empty(),
    }
}

/// The text form of a portal: coordinates in decimal, texts as they are.
pub open spec fn portal_text_form(p: PortalView) -> StringPortalView {
    StringPortalView {
        xcord: int_to_decimal(p.xcord as int),
        ycord: int_to_decimal(p.ycord as int),
        zcord: int_to_decimal(p.zcord as int),
        locale: p.locale,
        owner: p.owner,
        notes: p.notes,
        true_name: p.true_name,
    }
}

/// The text form of a nether portal.
pub open spec fn nether_portal_text_form(np: NetherPortalView) -> StringNetherPortalView {
    StringNetherPortalView {
        id: int_to_decimal(np.id as int),
        overworld: portal_text_form(np.overworld),
        nether: portal_text_form(np.nether),
        username: np.username,
    }
}

/// The portal that a text-form portal stands for, once its three coordinates parse.
pub open spec fn portal_from_text(s: StringPortalView) -> PortalView {
    PortalView {
        xcord: parsed_i32(s.xcord).unwrap(),
        ycord: parsed_i32(s.ycord).unwrap(),
        zcord: parsed_i32(s.zcord).unwrap(),
        locale: s.locale,
        owner: s.owner,
        notes: s.notes,
        true_name: s.true_name,
    }
}

/// Reading a text-form nether portal back: the coordinates are parsed in the
/// order the fields are visited ("xcord", "ycord", "zcord", nether before
/// overworld each time), then the id; the first text that does not parse gives
/// the error.
pub open spec fn nether_portal_from_text(s: StringNetherPortalView) -> Result<NetherPortalView, Seq<char>> {
    if parsed_i32(s.nether.xcord) is None {
        Err(i32_parse_error_text(s.nether.xcord))
    } else if parsed_i32(s.overworld.xcord) is None {
        Err(i32_parse_error_text(s.overworld.xcord))
    } else if parsed_i32(s.nether.zcord) is None {
        Err(i32_parse_error_text(s.nether.zcord))
    } else if parsed_i32(s.overworld.zcord) is None {
        Err(i32_parse_error_text(s.overworld.zcord))
    } else if parsed_i32(s.nether.ycord) is None {
        Err(i32_parse_error_text(s.nether.ycord))
    } else if parsed_i32(s.overworld.ycord) is None {
        Err(i32_parse_error_text(s.overworld.ycord))
    } else if parsed_i32(s.id) is None {
        Err(i32_parse_error_text(s.id))
    } else {
        Ok(
            NetherPortalView {
                id: parsed_i32(s.id).unwrap(),
                overworld: portal_from_text(s.overworld),
                nether: portal_from_text(s.nether),
                username: s.username,
            },
        )
    }
}

/// One side of a nether portal: coordinates and descriptive text.
#[derive(Debug, PartialEq)]
pub struct Portal {
    pub xcord: i32,
    pub ycord: i32,
    pub zcord: i32,
    pub locale: String,
    pub owner: String,
    pub notes: String,
    pub true_name: String,
}

/// A portal with every field held as text, as the user edits it.
#[derive(Debug, PartialEq)]
pub struct StringPortal {
    pub xcord: String,
    pub ycord: String,
    pub zcord: String,
    pub locale: String,
    pub owner: String,
    pub notes: String,
    pub true_name: String,
}

/// A nether portal: its database id, both sides and the user that owns it.
#[derive(Debug, PartialEq)]
pub struct NetherPortal {
    pub id: i32,
    pub overworld: Portal,
    pub nether: Portal,
    pub username: String,
}

/// A nether portal with every field held as text.
#[derive(Debug, PartialEq)]
pub struct StringNetherPortal {
    pub id: String,
    pub overworld: StringPortal,
    pub nether: StringPortal,
    pub username: String,
}

/// A field of a portal, borrowed for reading or for writing.
#[derive(Debug)]
pub enum PortalValue<'a> {
    Text(&'a String),
    MutText(&'a mut String),
    Number(&'a i32),
    MutNumber(&'a mut i32),
}

impl View for Portal {
    type V = PortalView;

    open spec fn view(&self) -> PortalView {
        PortalView {
            xcord: self.xcord,
            ycord: self.ycord,
            zcord: self.zcord,
            locale: self.locale@,
            owner: self.owner@,
            notes: self.notes@,
            true_name: self.true_name@,
        }
    }
}

impl View for StringPortal {
    type V = StringPortalView;

    open spec fn view(&self) -> StringPortalView {
        StringPortalView {
            xcord: self.xcord@,
            ycord: self.ycord@,
            zcord: self.zcord@,
            locale: self.locale@,
            owner: self.owner@,
            notes: self.notes@,
            true_name: self.true_name@,
        }
    }
}

impl View for NetherPortal {
    type V = NetherPortalView;

    open spec fn view(&self) -> NetherPortalView {
        NetherPortalView {
            id: self.id,
            overworld: self.overworld@,
            nether: self.nether@,
            username: self.username@,
        }
    }
}

impl View for StringNetherPortal {
    type V = StringNetherPortalView;

    open spec fn view(&self) -> StringNetherPortalView {
        StringNetherPortalView {
            id: self.id@,
            overworld: self.overworld@,
            nether: self.nether@,
            username: self.username@,
        }
    }
}

/// The text a portal value reads as: numbers in decimal, text as it is.
pub open spec fn portal_value_text(v: PortalValue) -> Seq<char> {
    match v {
        PortalValue::Number(n) => int_to_decimal(*n as int),
        PortalValue::MutNumber(n) => int_to_decimal(*n as int),
        PortalValue::Text(t) => t@,
        PortalValue::MutText(t) => t@,
    }
}

/// The error text for saving into a value that was borrowed for reading only.
pub open spec fn cannot_mutate_message(v: PortalValue) -> Seq<char> {
    let shown = match v {
        PortalValue::Number(n) => "Number("@ + int_to_decimal(*n as int) + ")"@,
        PortalValue::Text(t) => "Text("@ + debug_quoted(t@) + ")"@,
        _ => Seq::empty(),
    };
    "Cannot mutate: |"@ + shown + "| type PortalValue"@
}

impl Clone for Portal {
    fn clone(&self) -> (r: Self)
        ensures
            r == *self,
    {
        Portal {
            xcord: self.xcord,
            ycord: self.ycord,
            zcord: self.zcord,
            locale: self.locale.clone(),
            owner: self.owner.clone(),
            notes: self.notes.clone(),
            true_name: self.true_name.clone(),
        }
    }
}

impl Clone for StringPortal {
    fn clone(&self) -> (r: Self)
        ensures
            r == *self,
    {
        StringPortal {
            xcord: self.xcord.clone(),
            ycord: self.ycord.clone(),
            zcord: self.zcord.clone(),
            locale: self.locale.clone(),
            owner: self.owner.clone(),
            notes: self.notes.clone(),
            true_name: self.true_name.clone(),
        }
    }
}

impl Clone for NetherPortal {
    fn clone(&self) -> (r: Self)
        ensures
            r == *self,
    {
        NetherPortal {
            id: self.id,
            overworld: self.overworld.clone(),
            nether: self.nether.clone(),
            username: self.username.clone(),
        }
    }
}

impl Clone for StringNetherPortal {
    fn clone(&self) -> (r: Self)
        ensures
            r == *self,
    {
        StringNetherPortal {
            id: self.id.clone(),
            overworld: self.overworld.clone(),
            nether: self.nether.clone(),
            username: self.username.clone(),
        }
    }
}

impl Default for Portal {
    fn default() -> (r: Self)
        ensures
            r@ == empty_portal(),
    {
        Portal {
            xcord: 0,
            ycord: 0,
            zcord: 0,
            locale: String::new(),
            owner: String::new(),
            notes: String::new(),
            true_name: String::new(),
        }
    }
}

impl Default for NetherPortal {
    fn default() -> (r: Self)
        ensures
            r@ == (NetherPortalView {
                id: 0,
                overworld: empty_portal(),
                nether: empty_portal(),
                username: Seq::empty(),
            }),
    {
        NetherPortal {
            id: 0,
            overworld: Portal::default(),
            nether: Portal::default(),
            username: String::new(),
        }
    }
}

/// The error for a field name that no portal has.
fn missing_member(index: &str) -> (r: String)
    ensures
        r@ == missing_member_message(index@),
{
    concat3("This struct member: |", index, "| does not exist")
}

/// The error for a side name that is neither "OverWorld" nor "Nether".
fn unknown_side() -> (r: String)
    ensures
        r@ == unknown_side_message(),
{
    String::from_str(
        "You have personally summoned `Special Magus Faries` for violating the contract of our forefathers...!",
    )
}

impl<'a> PortalValue<'a> {
    /// The value as text: numbers in decimal, text copied.
    pub fn to_string(&self) -> (r: String)
        ensures
            r@ == portal_value_text(*self),
    {
        match self {
            PortalValue::Number(num) => i32_to_text(**num),
            PortalValue::Text(text) => (*text).clone(),
            PortalValue::MutNumber(mut_num) => i32_to_text(**mut_num),
            PortalValue::MutText(mut_text) => (**mut_text).clone(),
        }
    }
}

impl StringPortal {
    /// A text-form portal with every field empty.
    pub fn default() -> (r: Self)
        ensures
            r@ == empty_string_portal(),
    {
        StringPortal {
            xcord: String::new(),
            ycord: String::new(),
            zcord: String::new(),
            locale: String::new(),
            owner: String::new(),
            notes: String::new(),
            true_name: String::new(),
        }
    }

    /// A copy of the field that `index` names.
    pub fn get_clone(&self, index: &str) -> (r: Result<String, String>)
        ensures
            match field_slot(index@) {
                Some(f) => r matches Ok(s) && s@ == string_at(self@, f),
                None => r matches Err(e) && e@ == missing_member_message(index@),
            },
    {
        let result = self.get_ref(index);
        match result {
            Ok(value) => Ok(value.clone()),
            Err(error_string) => Err(error_string),
        }
    }

    /// The field that `index` names.
    pub fn get_ref(&self, index: &str) -> (r: Result<&String, String>)
        ensures
            match field_slot(index@) {
                Some(f) => r matches Ok(s) && s@ == string_at(self@, f),
                None => r matches Err(e) && e@ == missing_member_message(index@),
            },
    {
        if str_eq(index, "xcord") {
            Ok(&self.xcord)
        } else if str_eq(index, "ycord") {
            Ok(&self.zcord)
        } else if str_eq(index, "zcord") {
            Ok(&self.ycord)
        } else if str_eq(index, "locale") {
            Ok(&self.locale)
        } else if str_eq(index, "owner") {
            Ok(&self.owner)
        } else if str_eq(index, "notes") {
            Ok(&self.notes)
        } else if str_eq(index, "true_name") {
            Ok(&self.true_name)
        } else {
            Err(missing_member(index))
        }
    }

    /// The field that `index` names, borrowed for writing.
    pub fn get_mut(&mut self, index: &str) -> (r: Result<&mut String, String>)
        ensures
            match field_slot(index@) {
                Some(f) => r matches Ok(s) && (*s)@ == string_at(old(self)@, f)
                    && final(self)@ == with_string(old(self)@, f, (*final(s))@),
                None => r matches Err(e) && e@ == missing_member_message(index@)
                    && final(self)@ == old(self)@,
            },
    {
        if str_eq(index, "xcord") {
            Ok(&mut self.xcord)
        } else if str_eq(index, "ycord") {
            Ok(&mut self.zcord)
        } else if str_eq(index, "zcord") {
            Ok(&mut self.ycord)
        } else if str_eq(index, "locale") {
            Ok(&mut self.locale)
        } else if str_eq(index, "owner") {
            Ok(&mut self.owner)
        } else if str_eq(index, "notes") {
            Ok(&mut self.notes)
        } else if str_eq(index, "true_name") {
            Ok(&mut self.true_name)
        } else {
            Err(missing_member(index))
        }
    }
}


impl Portal {
    /// The field that `index` names, borrowed for reading.
    pub fn get(&self, index: &str) -> (r: Result<PortalValue<'_>, String>)
        ensures
            match field_slot(index@) {
                Some(f) => if is_number_field(f) {
                    r matches Ok(PortalValue::Number(n)) && *n == number_at(self@, f)
                } else {
                    r matches Ok(PortalValue::Text(t)) && t@ == text_at(self@, f)
                },
                None => r matches Err(e) && e@ == missing_member_message(index@),
            },
    {
        if str_eq(index, "xcord") {
            Ok(PortalValue::Number(&self.xcord))
        } else if str_eq(index, "ycord") {
            Ok(PortalValue::Number(&self.zcord))
        } else if str_eq(index, "zcord") {
            Ok(PortalValue::Number(&self.ycord))
        } else if str_eq(index, "locale") {
            Ok(PortalValue::Text(&self.locale))
        } else if str_eq(index, "owner") {
            Ok(PortalValue::Text(&self.owner))
        } else if str_eq(index, "notes") {
            Ok(PortalValue::Text(&self.notes))
        } else if str_eq(index, "true_name") {
            Ok(PortalValue::Text(&self.true_name))
        } else {
            Err(missing_member(index))
        }
    }

    /// The field that `index` names, borrowed for writing.
    pub fn get_mut(&mut self, index: &str) -> (r: Result<PortalValue<'_>, String>)
        ensures
            match field_slot(index@) {
                Some(f) => if is_number_field(f) {
                    r matches Ok(PortalValue::MutNumber(n)) && *n == number_at(old(self)@, f)
                        && final(self)@ == with_number(old(self)@, f, *final(n))
                } else {
                    r matches Ok(PortalValue::MutText(t)) && t@ == text_at(old(self)@, f)
                        && final(self)@ == with_text(old(self)@, f, (*final(t))@)
                },
                None => r matches Err(e) && e@ == missing_member_message(index@)
                    && final(self)@ == old(self)@,
            },
    {
        if str_eq(index, "xcord") {
            Ok(PortalValue::MutNumber(&mut self.xcord))
        } else if str_eq(index, "ycord") {
            Ok(PortalValue::MutNumber(&mut self.zcord))
        } else if str_eq(index, "zcord") {
            Ok(PortalValue::MutNumber(&mut self.ycord))
        } else if str_eq(index, "locale") {
            Ok(PortalValue::MutText(&mut self.locale))
        } else if str_eq(index, "owner") {
            Ok(PortalValue::MutText(&mut self.owner))
        } else if str_eq(index, "notes") {
            Ok(PortalValue::MutText(&mut self.notes))
        } else if str_eq(index, "true_name") {
            Ok(PortalValue::MutText(&mut self.true_name))
        } else {
            Err(missing_member(index))
        }
    }

    /// Writes `state` into a field borrowed for writing: text as it is, a
    /// coordinate once `state` parses as an `i32`.
    pub fn save(pv: PortalValue, state: String) -> (r: Result<(), String>)
        ensures
            match pv {
                PortalValue::MutText(t) => r is Ok && (*final(t))@ == state@,
                PortalValue::MutNumber(n) => match parsed_i32(state@) {
                    Some(v) => r is Ok && *final(n) == v,
                    None => r matches Err(e) && e@ == i32_parse_error_text(state@)
                        && *final(n) == *n,
                },
                _ => r matches Err(e) && e@ == cannot_mutate_message(pv),
            },
    {
        match pv {
            PortalValue::MutText(text) => {
                *text = state;
            },
            PortalValue::MutNumber(number) => {
                let result = parse_i32(state.as_str());
                match result {
                    Ok(some_number) => *number = some_number,
                    Err(error) => return Err(error),
                }
            },
            PortalValue::Number(number) => {
                let shown = concat3("Number(", i32_to_text(*number).as_str(), ")");
                return Err(concat3("Cannot mutate: |", shown.as_str(), "| type PortalValue"));
            },
            PortalValue::Text(text) => {
                let shown = concat3("Text(", debug_text(text.as_str()).as_str(), ")");
                return Err(concat3("Cannot mutate: |", shown.as_str(), "| type PortalValue"));
            },
        }
        Ok(())
    }
}

impl StringNetherPortal {
    /// A text-form nether portal with every field empty.
    pub fn default() -> (r: Self)
        ensures
            r@ == (StringNetherPortalView {
                id: Seq::empty(),
                overworld: empty_string_portal(),
                nether: empty_string_portal(),
                username: Seq::empty(),
            }),
    {
        StringNetherPortal {
            id: String::new(),
            overworld: StringPortal::default(),
            nether: StringPortal::default(),
            username: String::new(),
        }
    }

    /// The side that `index` names ("OverWorld" or "Nether"), borrowed for writing.
    pub fn get_mut_ref(&mut self, index: &str) -> (r: Result<&mut StringPortal, String>)
        ensures
            match side_slot(index@) {
                Some(true) => r matches Ok(p) && *p == old(self).overworld
                    && final(self).overworld == *final(p)
                    && final(self).nether == old(self).nether && final(self).id == old(self).id
                    && final(self).username == old(self).username,
                Some(false) => r matches Ok(p) && *p == old(self).nether
                    && final(self).nether == *final(p)
                    && final(self).overworld == old(self).overworld
                    && final(self).id == old(self).id
                    && final(self).username == old(self).username,
                None => r matches Err(e) && e@ == unknown_side_message() && *final(self)
                    == *old(self),
            },
    {
        if str_eq(index, "OverWorld") {
            Ok(&mut self.overworld)
        } else if str_eq(index, "Nether") {
            Ok(&mut self.nether)
        } else {
            Err(unknown_side())
        }
    }

    /// The side that `index` names ("OverWorld" or "Nether").
    pub fn get(&self, index: &str) -> (r: Result<&StringPortal, String>)
        ensures
            match side_slot(index@) {
                Some(true) => r matches Ok(p) && *p == self.overworld,
                Some(false) => r matches Ok(p) && *p == self.nether,
                None => r matches Err(e) && e@ == unknown_side_message(),
            },
    {
        if str_eq(index, "OverWorld") {
            Ok(&self.overworld)
        } else if str_eq(index, "Nether") {
            Ok(&self.nether)
        } else {
            Err(unknown_side())
        }
    }
}

impl NetherPortal {
    /// A copy of the side that `index` names ("OverWorld" or "Nether").
    pub fn im_lazy_cloned(&self, index: &str) -> (r: Result<Portal, String>)
        ensures
            match side_slot(index@) {
                Some(true) => r == Ok::<Portal, String>(self.overworld),
                Some(false) => r == Ok::<Portal, String>(self.nether),
                None => r matches Err(e) && e@ == unknown_side_message(),
            },
    {
        if str_eq(index, "OverWorld") {
            Ok(self.overworld.clone())
        } else if str_eq(index, "Nether") {
            Ok(self.nether.clone())
        } else {
            Err(unknown_side())
        }
    }

    /// The side that `index` names ("OverWorld" or "Nether"), borrowed for writing.
    pub fn get_mut_ref(&mut self, index: &str) -> (r: Result<&mut Portal, String>)
        ensures
            match side_slot(index@) {
                Some(true) => r matches Ok(p) && *p == old(self).overworld
                    && final(self).overworld == *final(p)
                    && final(self).nether == old(self).nether && final(self).id == old(self).id
                    && final(self).username == old(self).username,
                Some(false) => r matches Ok(p) && *p == old(self).nether
                    && final(self).nether == *final(p)
                    && final(self).overworld == old(self).overworld
                    && final(self).id == old(self).id
                    && final(self).username == old(self).username,
                None => r matches Err(e) && e@ == unknown_side_message() && *final(self)
                    == *old(self),
            },
    {
        if str_eq(index, "OverWorld") {
            Ok(&mut self.overworld)
        } else if str_eq(index, "Nether") {
            Ok(&mut self.nether)
        } else {
            Err(unknown_side())
        }
    }
}


/// Where each of the seven field names leads.
pub proof fn lemma_field_names()
    ensures
        field_slot("xcord"@) == Some(PortalField::Xcord),
        field_slot("ycord"@) == Some(PortalField::Zcord),
        field_slot("zcord"@) == Some(PortalField::Ycord),
        field_slot("locale"@) == Some(PortalField::Locale),
        field_slot("owner"@) == Some(PortalField::Owner),
        field_slot("notes"@) == Some(PortalField::Notes),
        field_slot("true_name"@) == Some(PortalField::TrueName),
{
    reveal_strlit("xcord");
    reveal_strlit("ycord");
    reveal_strlit("zcord");
    reveal_strlit("locale");
    reveal_strlit("owner");
    reveal_strlit("notes");
    reveal_strlit("true_name");
    assert("ycord"@[0] != "xcord"@[0]);
    assert("zcord"@[0] != "xcord"@[0]);
    assert("zcord"@[0] != "ycord"@[0]);
    assert("locale"@.len() != "xcord"@.len());
    assert("owner"@[0] != "xcord"@[0]);
    assert("owner"@[0] != "ycord"@[0]);
    assert("owner"@[0] != "zcord"@[0]);
    assert("notes"@[0] != "xcord"@[0]);
    assert("notes"@[0] != "ycord"@[0]);
    assert("notes"@[0] != "zcord"@[0]);
    assert("notes"@[0] != "owner"@[0]);
    assert("true_name"@.len() != "xcord"@.len());
    assert("true_name"@.len() != "locale"@.len());
}

/// Writes the text of field `index` of `src` into the same field of `dst`.
fn copy_as_text(dst: &mut StringPortal, src: &Portal, index: &str) -> (r: Result<(), String>)
    ensures
        match field_slot(index@) {
            Some(f) => r is Ok && final(dst)@ == with_string(old(dst)@, f, field_text(src@, f)),
            None => r matches Err(e) && e@ == missing_member_message(index@) && final(dst)@
                == old(dst)@,
        },
{
    *dst.get_mut(index)? = src.get(index)?.to_string();
    Ok(())
}

/// Reads field `index` of `src` into the same field of `dst`, parsing coordinates.
fn store_from_text(dst: &mut Portal, src: &StringPortal, index: &str) -> (r: Result<(), String>)
    ensures
        match field_slot(index@) {
            Some(f) => if is_number_field(f) {
                match parsed_i32(string_at(src@, f)) {
                    Some(v) => r is Ok && final(dst)@ == with_number(old(dst)@, f, v),
                    None => r matches Err(e) && e@ == i32_parse_error_text(string_at(src@, f))
                        && final(dst)@ == old(dst)@,
                }
            } else {
                r is Ok && final(dst)@ == with_text(old(dst)@, f, string_at(src@, f))
            },
            None => r matches Err(e) && e@ == missing_member_message(index@) && final(dst)@
                == old(dst)@,
        },
{
    Portal::save(dst.get_mut(index)?, src.get_clone(index)?)
}

/// The text form of one side, built field by field.
fn portal_as_text(src: &Portal) -> (r: StringPortal)
    ensures
        r@ == portal_text_form(src@),
{
    proof {
        lemma_field_names();
    }
    let mut dst = StringPortal::default();
    let _ = copy_as_text(&mut dst, src, "xcord");
    let _ = copy_as_text(&mut dst, src, "ycord");
    let _ = copy_as_text(&mut dst, src, "zcord");
    let _ = copy_as_text(&mut dst, src, "locale");
    let _ = copy_as_text(&mut dst, src, "owner");
    let _ = copy_as_text(&mut dst, src, "notes");
    let _ = copy_as_text(&mut dst, src, "true_name");
    dst
}

impl StringNetherPortal {
    /// The text form of a nether portal: coordinates and id in decimal. It
    /// never fails.
    pub fn convert(nether_portal: NetherPortal) -> (r: Result<StringNetherPortal, String>)
        ensures
            r matches Ok(s) && s@ == nether_portal_text_form(nether_portal@),
    {
        let nether = portal_as_text(&nether_portal.nether);
        let overworld = portal_as_text(&nether_portal.overworld);
        let string_nether_portal = StringNetherPortal {
            id: i32_to_text(nether_portal.id),
            nether,
            overworld,
            username: nether_portal.username,
        };
        Ok(string_nether_portal)
    }
}

impl NetherPortal {
    /// Reads a text-form nether portal back, parsing every coordinate and the
    /// id; the first text that is not an `i32` gives the error.
    pub fn convert(string_nether_portal: &StringNetherPortal) -> (r: Result<NetherPortal, String>)
        ensures
            match nether_portal_from_text(string_nether_portal@) {
                Ok(np) => r matches Ok(p) && p@ == np,
                Err(e) => r matches Err(m) && m@ == e,
            },
    {
        proof {
            lemma_field_names();
        }
        let s = string_nether_portal;
        let (mut nether, mut overworld) = (Portal::default(), Portal::default());
        store_from_text(&mut nether, &s.nether, "xcord")?;
        store_from_text(&mut overworld, &s.overworld, "xcord")?;
        store_from_text(&mut nether, &s.nether, "ycord")?;
        store_from_text(&mut overworld, &s.overworld, "ycord")?;
        store_from_text(&mut nether, &s.nether, "zcord")?;
        store_from_text(&mut overworld, &s.overworld, "zcord")?;
        store_from_text(&mut nether, &s.nether, "locale")?;
        store_from_text(&mut overworld, &s.overworld, "locale")?;
        store_from_text(&mut nether, &s.nether, "owner")?;
        store_from_text(&mut overworld, &s.overworld, "owner")?;
        store_from_text(&mut nether, &s.nether, "notes")?;
        store_from_text(&mut overworld, &s.overworld, "notes")?;
        store_from_text(&mut nether, &s.nether, "true_name")?;
        store_from_text(&mut overworld, &s.overworld, "true_name")?;
        let id = match parse_i32(s.id.as_str()) {
            Ok(number) => number,
            Err(error) => return Err(error),
        };
        Ok(NetherPortal { id, nether, overworld, username: s.username.clone() })
    }
}

} // verus!
