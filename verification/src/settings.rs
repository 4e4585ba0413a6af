//! The bots' configuration: an INI document read through `rust-ini`, and the
//! parsing of the values that it holds (hotkeys, memory offsets, screen
//! positions, colours and client names).
use vstd::prelude::*;

use ini::Ini;

use crate::color::{pixel_hex, pixel_hex_spec};
use crate::text::{
    digits_value, parse_i32, parse_i32_spec, parse_unsigned, parse_unsigned_spec, same_text, split_on,
    split_on_char, strip_hex_prefix, strip_hex_prefix_str, views,
};

verus! {

#[verifier::external_type_specification]
#[verifier::external_body]
pub struct ExIni(Ini);

/// What a `rust-ini` document answers for each named section and key: the
/// first value of the key in the first section of that name, as
/// `Ini::get_from(Some(section), key)` returns it.
pub uninterp spec fn ini_settings(ini: Ini) -> Map<(Seq<char>, Seq<char>), Seq<char>>;

/// The names of a `rust-ini` document's named sections in the order in which
/// `Ini::sections` yields them: the order in which the sections were first
/// created. A document built by `Ini::set_to` alone holds each section once,
/// and `Ini::write_to_file` writes its sections in this order. The general
/// section, which this library never creates, is left out.
pub uninterp spec fn ini_section_order(ini: Ini) -> Seq<Seq<char>>;

/// `Ini::new`: a document without sections, so no lookup finds a value.
#[verifier::external_body]
fn ini_new() -> (doc: Ini)
    ensures
        ini_settings(doc).is_empty(),
        ini_section_order(doc) == Seq::<Seq<char>>::empty(),
{
    Ini::new()
}

/// `Ini::set_to(Some(section), key, value)`: the first section of that name
/// (created when there is none) has all values of `key` replaced by `value`;
/// no other lookup changes. A section that is created goes after all the
/// others (`VacantEntry::insert` pushes its name to the back of the key
/// list); an existing one keeps its place.
#[verifier::external_body]
fn ini_set(doc: &mut Ini, section: &str, key: &str, value: &str)
    ensures
        ini_settings(*final(doc)) == ini_settings(*old(doc)).insert((section@, key@), value@),
        ini_section_order(*final(doc)) == if ini_section_order(*old(doc)).contains(section@) {
            ini_section_order(*old(doc))
        } else {
            ini_section_order(*old(doc)).push(section@)
        },
{
    doc.set_to(Some(section), key.to_string(), value.to_string());
}

/// `Ini::get_from(Some(section), key)`: the first value of `key` in the first
/// section named `section`, or `None` when there is no such section or key.
#[verifier::external_body]
fn ini_get(doc: &Ini, section: &str, key: &str) -> (value: Option<String>)
    ensures
        value is Some <==> ini_settings(*doc).contains_key((section@, key@)),
        value matches Some(v) ==> v@ == ini_settings(*doc)[(section@, key@)],
{
    doc.get_from(Some(section), key).map(|v| v.to_string())
}

} // verus!

verus! {

/// The value of each piece read as hexadecimal (after any leading `0x`),
/// or `None` when some piece is not a hexadecimal number up to `max`.
pub open spec fn parse_hex_pieces(pieces: Seq<Seq<char>>, max: int) -> Option<Seq<int>>
    decreases pieces.len(),
{
    if pieces.len() == 0 {
        Some(Seq::empty())
    } else {
        match (
            parse_hex_pieces(pieces.drop_last(), max),
            parse_unsigned_spec(strip_hex_prefix(pieces.last()), 16, max),
        ) {
            (Some(vs), Some(v)) => Some(vs.push(v)),
            _ => None,
        }
    }
}

/// The value of each piece read as an `i32`, or `None` when one is not.
pub open spec fn parse_i32_pieces(pieces: Seq<Seq<char>>) -> Option<Seq<int>>
    decreases pieces.len(),
{
    if pieces.len() == 0 {
        Some(Seq::empty())
    } else {
        match (parse_i32_pieces(pieces.drop_last()), parse_i32_spec(pieces.last())) {
            (Some(vs), Some(v)) => Some(vs.push(v)),
            _ => None,
        }
    }
}

/// A comma separated list of hexadecimal numbers such as `0xA0,0x73`.
pub open spec fn hex_list_spec(raw: Seq<char>, max: int) -> Option<Seq<int>> {
    parse_hex_pieces(split_on(raw, ','), max)
}

/// A screen position `x,y`: every comma separated piece must be an `i32`
/// and there must be at least two; the first two are the coordinates.
pub open spec fn point_spec(raw: Seq<char>) -> Option<(int, int)> {
    match parse_i32_pieces(split_on(raw, ',')) {
        Some(vs) => if vs.len() >= 2 { Some((vs[0], vs[1])) } else { None },
        None => None,
    }
}

/// Whether one of the comma separated colours is the pixel's colour written
/// as `0xRRGGBB`.
pub open spec fn color_listed_spec(colors: Seq<char>, pixel: u32) -> bool {
    exists|i: int|
        0 <= i < split_on(colors, ',').len() && #[trigger] split_on(colors, ',')[i]
            == pixel_hex_spec(pixel)
}

/// Numbers as integers.
pub open spec fn u64s_as_ints(v: Seq<u64>) -> Seq<int> {
    v.map_values(|x: u64| x as int)
}

/// Numbers as integers.
pub open spec fn u16s_as_ints(v: Seq<u16>) -> Seq<int> {
    v.map_values(|x: u16| x as int)
}

/// Parses a comma separated list of hexadecimal numbers, each of which may
/// carry `0x` prefixes, as the bots read their hotkeys and memory offsets.
pub fn parse_hex_list(raw: &str, max: u64) -> (values: Option<Vec<u64>>)
    requires
        max >= 16,
    ensures
        match hex_list_spec(raw@, max as int) {
            Some(vs) => values matches Some(v) && u64s_as_ints(v@) == vs,
            None => values is None,
        },
{
    let pieces = split_on_char(raw, ',');
    let ghost ps = split_on(raw@, ',');
    let mut values: Vec<u64> = Vec::new();
    let mut i: usize = 0;
    assert(ps.take(0) =~= Seq::<Seq<char>>::empty());
    while i < pieces.len()
        invariant
            max >= 16,
            views(pieces@) == ps,
            ps == split_on(raw@, ','),
            i <= pieces@.len(),
            parse_hex_pieces(ps.take(i as int), max as int) == Some(u64s_as_ints(values@)),
        decreases pieces@.len() - i,
    {
        let stripped = strip_hex_prefix_str(pieces[i].as_str());
        proof {
            assert(ps.take(i + 1).drop_last() =~= ps.take(i as int));
            assert(ps.take(i + 1).last() == pieces@[i as int]@);
        }
        assert(ps[i as int] == pieces@[i as int]@);
        match parse_unsigned(stripped.as_str(), 16, max) {
            Some(v) => {
                let ghost before = values@;
                values.push(v);
                assert(u64s_as_ints(values@) =~= u64s_as_ints(before).push(v as int));
            },
            None => {
                proof {
                    let t = ps.take(i + 1);
                    assert(t.drop_last() =~= ps.take(i as int));
                    assert(t.last() == ps[i as int]);
                    assert(parse_hex_pieces(t, max as int) is None);
                    lemma_hex_pieces_prefix(ps, i + 1, max as int);
                }
                return None;
            },
        }
        i = i + 1;
    }
    assert(ps.take(pieces@.len() as int) =~= ps);
    Some(values)
}

/// Every parsed value is within the bound.
proof fn lemma_hex_pieces_bound(ps: Seq<Seq<char>>, max: int)
    ensures
        parse_hex_pieces(ps, max) matches Some(vs) ==> forall|j: int|
            0 <= j < vs.len() ==> vs[j] <= max,
    decreases ps.len(),
{
    if ps.len() > 0 {
        lemma_hex_pieces_bound(ps.drop_last(), max);
    }
}

/// A failing prefix makes the whole list fail.
proof fn lemma_hex_pieces_prefix(ps: Seq<Seq<char>>, k: int, max: int)
    requires
        0 <= k <= ps.len(),
        parse_hex_pieces(ps.take(k), max) is None,
    ensures
        parse_hex_pieces(ps, max) is None,
    decreases ps.len(),
{
    if k < ps.len() {
        assert(ps.drop_last().take(k) =~= ps.take(k));
        lemma_hex_pieces_prefix(ps.drop_last(), k, max);
    } else {
        assert(ps.take(k) =~= ps);
    }
}

/// A failing prefix makes the whole list fail.
proof fn lemma_i32_pieces_prefix(ps: Seq<Seq<char>>, k: int)
    requires
        0 <= k <= ps.len(),
        parse_i32_pieces(ps.take(k)) is None,
    ensures
        parse_i32_pieces(ps) is None,
    decreases ps.len(),
{
    if k < ps.len() {
        assert(ps.drop_last().take(k) =~= ps.take(k));
        lemma_i32_pieces_prefix(ps.drop_last(), k);
    } else {
        assert(ps.take(k) =~= ps);
    }
}

/// Parses a screen position written as `x,y`.
pub fn parse_point(raw: &str) -> (point: Option<(i32, i32)>)
    ensures
        match point_spec(raw@) {
            Some(p) => point == Some((p.0 as i32, p.1 as i32)),
            None => point is None,
        },
{
    let pieces = split_on_char(raw, ',');
    let ghost ps = split_on(raw@, ',');
    let mut values: Vec<i32> = Vec::new();
    let mut i: usize = 0;
    assert(ps.take(0) =~= Seq::<Seq<char>>::empty());
    while i < pieces.len()
        invariant
            views(pieces@) == ps,
            ps == split_on(raw@, ','),
            i <= pieces@.len(),
            parse_i32_pieces(ps.take(i as int)) == Some(values@.map_values(|x: i32| x as int)),
        decreases pieces@.len() - i,
    {
        proof {
            assert(ps.take(i + 1).drop_last() =~= ps.take(i as int));
            assert(ps.take(i + 1).last() == pieces@[i as int]@);
        }
        assert(ps[i as int] == pieces@[i as int]@);
        match parse_i32(pieces[i].as_str()) {
            Some(v) => {
                let ghost before = values@;
                values.push(v);
                assert(values@.map_values(|x: i32| x as int) =~= before.map_values(
                    |x: i32| x as int,
                ).push(v as int));
            },
            None => {
                proof {
                    let t = ps.take(i + 1);
                    assert(t.drop_last() =~= ps.take(i as int));
                    assert(t.last() == ps[i as int]);
                    assert(parse_i32_pieces(t) is None);
                    lemma_i32_pieces_prefix(ps, i + 1);
                }
                return None;
            },
        }
        i = i + 1;
    }
    assert(ps.take(pieces@.len() as int) =~= ps);
    if values.len() >= 2 {
        Some((values[0], values[1]))
    } else {
        None
    }
}

/// Whether the pixel's colour, written as `0xRRGGBB`, is one of the comma
/// separated colours: the test behind every screen check of the bots.
pub fn color_listed(colors: &str, pixel: u32) -> (listed: bool)
    ensures
        listed == color_listed_spec(colors@, pixel),
{
    let pieces = split_on_char(colors, ',');
    let hex = pixel_hex(pixel);
    let mut i: usize = 0;
    while i < pieces.len()
        invariant
            views(pieces@) == split_on(colors@, ','),
            hex@ == pixel_hex_spec(pixel),
            i <= pieces@.len(),
            forall|j: int| 0 <= j < i ==> split_on(colors@, ',')[j] != pixel_hex_spec(pixel),
        decreases pieces@.len() - i,
    {
        assert(views(pieces@)[i as int] == pieces@[i as int]@);
        if pieces[i] == hex {
            assert(split_on(colors@, ',')[i as int] == pixel_hex_spec(pixel));
            return true;
        }
        i = i + 1;
    }
    assert(!color_listed_spec(colors@, pixel));
    false
}

} // verus!

verus! {

/// A bot's configuration document.
pub struct Configuration {
    pub ini: Ini,
}

/// The result of reading a setting and parsing it: `None` when the setting
/// is missing, else what the parse gives.
pub open spec fn parsed<T>(raw: Option<Seq<char>>, parse: spec_fn(Seq<char>) -> Option<T>) -> Option<T> {
    match raw {
        Some(r) => parse(r),
        None => None,
    }
}

impl Configuration {
    /// The value that `section(Some(section)).get(key)` finds, if any.
    pub open spec fn lookup(&self, section: Seq<char>, key: Seq<char>) -> Option<Seq<char>> {
        if ini_settings(self.ini).contains_key((section, key)) {
            Some(ini_settings(self.ini)[(section, key)])
        } else {
            None
        }
    }

    /// The value of `key` in `section`; `None` where the bots' lookup fails.
    pub fn value(&self, section: &str, key: &str) -> (v: Option<String>)
        ensures
            v is Some <==> self.lookup(section@, key@) is Some,
            v matches Some(s) ==> self.lookup(section@, key@) == Some(s@),
    {
        ini_get(&self.ini, section, key)
    }

    /// Whether the configuration asks to activate the barrier before Bulmalo:
    /// `ActivateGate` in the `Configuration` section reads `true`.
    pub fn activate_barrier(&self) -> (on: bool)
        ensures
            on == (self.lookup("Configuration"@, "ActivateGate"@) == Some("true"@)),
    {
        match self.value("Configuration", "ActivateGate") {
            Some(v) => same_text(v.as_str(), "true"),
            None => false,
        }
    }

    /// The virtual key codes of a hotkey from the `Hotkeys` section, such as
    /// `0xA0,0x73` for shift and F4.
    pub fn hotkey(&self, name: &str) -> (keys: Option<Vec<u16>>)
        ensures
            match parsed(self.lookup("Hotkeys"@, name@), |r: Seq<char>| hex_list_spec(r, 0xFFFF)) {
                Some(vs) => keys matches Some(k) && u16s_as_ints(k@) == vs,
                None => keys is None,
            },
    {
        let raw = match self.value("Hotkeys", name) {
            Some(r) => r,
            None => return None,
        };
        let values = match parse_hex_list(raw.as_str(), 0xFFFF) {
            Some(v) => v,
            None => return None,
        };
        proof {
            lemma_hex_pieces_bound(split_on(raw@, ','), 0xFFFF);
            assert forall|j: int| 0 <= j < values@.len() implies values@[j] <= 0xFFFF by {
                assert(u64s_as_ints(values@)[j] == values@[j] as int);
            }
        }
        let mut keys: Vec<u16> = Vec::new();
        let mut i: usize = 0;
        while i < values.len()
            invariant
                i <= values@.len(),
                forall|j: int| 0 <= j < values@.len() ==> values@[j] <= 0xFFFF,
                u16s_as_ints(keys@) == u64s_as_ints(values@.take(i as int)),
            decreases values@.len() - i,
        {
            let ghost before = keys@;
            keys.push(values[i] as u16);
            assert(u16s_as_ints(keys@) =~= u16s_as_ints(before).push(values@[i as int] as int));
            assert(values@.take(i + 1) =~= values@.take(i as int).push(values@[i as int]));
            assert(u64s_as_ints(values@.take(i + 1)) =~= u64s_as_ints(values@.take(i as int)).push(values@[i as int] as int));
            i = i + 1;
        }
        assert(values@.take(values@.len() as int) =~= values@);
        Some(keys)
    }

    /// The memory offsets of a pointer chain from the `Pointers` section.
    pub fn offsets(&self, name: &str) -> (offsets: Option<Vec<u64>>)
        ensures
            match parsed(self.lookup("Pointers"@, name@), |r: Seq<char>| hex_list_spec(r, 0xFFFF_FFFF_FFFF_FFFF)) {
                Some(vs) => offsets matches Some(o) && u64s_as_ints(o@) == vs,
                None => offsets is None,
            },
    {
        match self.value("Pointers", name) {
            Some(raw) => parse_hex_list(raw.as_str(), 0xFFFF_FFFF_FFFF_FFFF),
            None => None,
        }
    }

    /// A base address from the `Pointers` section, written in hexadecimal.
    pub fn address(&self, name: &str) -> (address: Option<u64>)
        ensures
            address is Some <==> parsed(self.lookup("Pointers"@, name@), |r: Seq<char>| parse_unsigned_spec(strip_hex_prefix(r), 16, 0xFFFF_FFFF_FFFF_FFFF)) is Some,
            address matches Some(a) ==> parsed(self.lookup("Pointers"@, name@), |r: Seq<char>| parse_unsigned_spec(strip_hex_prefix(r), 16, 0xFFFF_FFFF_FFFF_FFFF)) == Some(a as int),
    {
        match self.value("Pointers", name) {
            Some(raw) => {
                let stripped = strip_hex_prefix_str(raw.as_str());
                parse_unsigned(stripped.as_str(), 16, 0xFFFF_FFFF_FFFF_FFFF)
            },
            None => None,
        }
    }

    /// A whole number written in decimal, such as `CameraFullTurnPixels` or
    /// `CombatTime` in the `Configuration` section.
    pub fn number(&self, section: &str, key: &str) -> (n: Option<u64>)
        ensures
            n is Some <==> parsed(self.lookup(section@, key@), |r: Seq<char>| parse_unsigned_spec(r, 10, 0xFFFF_FFFF_FFFF_FFFF)) is Some,
            n matches Some(v) ==> parsed(self.lookup(section@, key@), |r: Seq<char>| parse_unsigned_spec(r, 10, 0xFFFF_FFFF_FFFF_FFFF)) == Some(v as int),
    {
        match self.value(section, key) {
            Some(raw) => parse_unsigned(raw.as_str(), 10, 0xFFFF_FFFF_FFFF_FFFF),
            None => None,
        }
    }

    /// A screen position `x,y`.
    pub fn point(&self, section: &str, key: &str) -> (p: Option<(i32, i32)>)
        ensures
            match parsed(self.lookup(section@, key@), |r: Seq<char>| point_spec(r)) {
                Some(q) => p == Some((q.0 as i32, q.1 as i32)),
                None => p is None,
            },
    {
        match self.value(section, key) {
            Some(raw) => parse_point(raw.as_str()),
            None => None,
        }
    }

    /// The names of the client characters to invite, from `Clients`.
    pub fn clients(&self) -> (names: Option<Vec<String>>)
        ensures
            match self.lookup("Configuration"@, "Clients"@) {
                Some(raw) => names matches Some(n) && views(n@) == split_on(raw, ','),
                None => names is None,
            },
    {
        match self.value("Configuration", "Clients") {
            Some(raw) => Some(split_on_char(raw.as_str(), ',')),
            None => None,
        }
    }

    /// The screen check named by a position setting and a colour setting of
    /// `section`; `None` when either setting is missing.
    pub fn screen_check(&self, section: &str, position_key: &str, color_key: &str) -> (check: Option<ScreenCheck>)
        ensures
            check is Some <==> (self.lookup(section@, position_key@) is Some && self.lookup(section@, color_key@) is Some),
            check matches Some(c) ==> {
                &&& views(c.positions@) == split_on(self.lookup(section@, position_key@)->0, ';')
                &&& c.colors@ == self.lookup(section@, color_key@)->0
            },
    {
        let positions = match self.value(section, position_key) {
            Some(p) => p,
            None => return None,
        };
        let colors = match self.value(section, color_key) {
            Some(c) => c,
            None => return None,
        };
        Some(ScreenCheck { positions: split_on_char(positions.as_str(), ';'), colors })
    }
}

/// A screen check of the bots: the pixels at a list of positions are read
/// one after the other, and the check holds as soon as one of them has one of
/// the listed colours.
pub struct ScreenCheck {
    /// The positions, each written `x,y`.
    pub positions: Vec<String>,
    /// The accepted colours, comma separated, each written `0xRRGGBB`.
    pub colors: String,
}

impl ScreenCheck {
    /// The number of positions to read.
    pub fn len(&self) -> (n: usize)
        ensures
            n == self.positions@.len(),
    {
        self.positions.len()
    }

    /// The `i`-th position to read; `None` when it is not a valid `x,y`.
    pub fn position(&self, i: usize) -> (p: Option<(i32, i32)>)
        requires
            i < self.positions@.len(),
        ensures
            match point_spec(self.positions@[i as int]@) {
                Some(q) => p == Some((q.0 as i32, q.1 as i32)),
                None => p is None,
            },
    {
        parse_point(self.positions[i].as_str())
    }

    /// Whether a pixel read at one of the positions has an accepted colour.
    pub fn accepts(&self, pixel: u32) -> (ok: bool)
        ensures
            ok == color_listed_spec(self.colors@, pixel),
    {
        color_listed(self.colors.as_str(), pixel)
    }

    /// The positions to read; `None` when one of them is not a valid `x,y`.
    pub fn points(&self) -> (points: Option<Vec<(i32, i32)>>)
        ensures
            points is Some <==> forall|i: int| 0 <= i < self.positions@.len() ==> #[trigger] point_spec(self.positions@[i]@) is Some,
            points matches Some(p) ==> p@.len() == self.positions@.len() && forall|i: int| 0 <= i < p@.len()
                ==> (point_spec(self.positions@[i]@) matches Some(q) && #[trigger] p@[i] == (q.0 as i32, q.1 as i32)),
    {
        let mut points: Vec<(i32, i32)> = Vec::new();
        let mut i: usize = 0;
        while i < self.positions.len()
            invariant
                i <= self.positions@.len(),
                points@.len() == i,
                forall|j: int| 0 <= j < i ==> #[trigger] point_spec(self.positions@[j]@) is Some,
                forall|j: int| 0 <= j < i ==> (point_spec(self.positions@[j]@) matches Some(q) && #[trigger] points@[j] == (q.0 as i32, q.1 as i32)),
            decreases self.positions@.len() - i,
        {
            match parse_point(self.positions[i].as_str()) {
                Some(p) => points.push(p),
                None => return None,
            }
            i = i + 1;
        }
        Some(points)
    }

    /// Whether the check holds for the pixels read at its positions: one of
    /// them has an accepted colour.
    pub fn holds(&self, pixels: &Vec<u32>) -> (ok: bool)
        ensures
            ok == exists|i: int| 0 <= i < pixels@.len() && color_listed_spec(self.colors@, #[trigger] pixels@[i]),
    {
        let mut i: usize = 0;
        while i < pixels.len()
            invariant
                i <= pixels@.len(),
                forall|j: int| 0 <= j < i ==> !color_listed_spec(self.colors@, #[trigger] pixels@[j]),
            decreases pixels@.len() - i,
        {
            if self.accepts(pixels[i]) {
                return true;
            }
            i = i + 1;
        }
        false
    }
}

} // verus!

verus! {

/// The settings that the Poharan bot writes when no configuration file exists yet.
pub open spec fn poharan_default_settings() -> Map<(Seq<char>, Seq<char>), Seq<char>> {
    Map::empty()
        .insert(("Configuration"@, "FarmStage"@), "5"@)
        .insert(("Configuration"@, "AnimationSpeedHackValue"@), "10"@)
        .insert(("Configuration"@, "SlowAnimationSpeedHackValue"@), "6"@)
        .insert(("Configuration"@, "LogFile"@), "poharan_multibox.log"@)
        .insert(("Pointers"@, "BaseAddressPlayer"@), "0x07536B40"@)
        .insert(("Pointers"@, "OffsetsAnimationSpeed"@), "0x30,0x2C0,0x98"@)
        .insert(("Pointers"@, "OffsetsCameraYaw"@), ""@)
        .insert(("Pointers"@, "OffsetsPlayerX"@), "0x30,0x2C0,0x130,0x1F0"@)
        .insert(("Pointers"@, "OffsetsPlayerY"@), "0x30,0x2C0,0x130,0x1F4"@)
        .insert(("Pointers"@, "OffsetsPlayerZ"@), "0x30,0x2C0,0x130,0x1F8"@)
        .insert(("Pointers"@, "BaseAddressDungeon"@), "0x074B5AF0"@)
        .insert(("Pointers"@, "OffsetsDungeonStage"@), "0xA0,0x8D8,0x28,0x1D0"@)
        .insert(("Pointers"@, "OffsetsLobbyNumber"@), "0xA0,0x8D8,0x28,0x20"@)
        .insert(("Hotkeys"@, "AfterTaeJangum"@), "0x42,0x42"@)
        .insert(("Hotkeys"@, "ToggleAutoCombat"@), "0xA0,0x73"@)
        .insert(("Hotkeys"@, "CheatEngineSpeedHackOn"@), "0x91"@)
        .insert(("Hotkeys"@, "CheatEngineSpeedHackOff"@), "0x63"@)
        .insert(("Hotkeys"@, "FlyHackBoss1"@), "0x68"@)
        .insert(("Hotkeys"@, "FlyHackBoss2"@), "0x69"@)
        .insert(("Hotkeys"@, "DisableFlyHack"@), "0x64"@)
        .insert(("Hotkeys"@, "ShadowPlay"@), "0x12,0x79"@)
        .insert(("UserInterfaceLobby"@, "PositionInF8Lobby"@), "23,34"@)
        .insert(("UserInterfaceLobby"@, "InF8Lobby"@), "0xCECECF"@)
        .insert(("UserInterfaceLobby"@, "PositionFindLobby"@), "1800,1025"@)
        .insert(("UserInterfaceLobby"@, "PositionHasJoinLobbyDialogue"@), "985,602"@)
        .insert(("UserInterfaceLobby"@, "HasJoinLobbyDialogue"@), "0xFFFFFF"@)
        .insert(("UserInterfaceLobby"@, "PositionIsReady"@), "940,1036"@)
        .insert(("UserInterfaceLobby"@, "IsReady"@), "0x898989,0xFFFFFF"@)
        .insert(("UserInterfaceLobby"@, "PositionReady"@), "962,1037"@)
        .insert(("UserInterfaceLobby"@, "PositionDungeonSelected"@), "1686,317"@)
        .insert(("UserInterfaceLobby"@, "DungeonSelected"@), "0x3E261C"@)
        .insert(("UserInterfaceLobby"@, "PositionClickDungeon"@), "1561,666"@)
        .insert(("UserInterfaceLobby"@, "PositionStageSelected"@), "1732,485"@)
        .insert(("UserInterfaceLobby"@, "StageSelected"@), "0xE2E2E2"@)
        .insert(("UserInterfaceLobby"@, "PositionStageRightSide"@), "1747,478"@)
        .insert(("UserInterfaceLobby"@, "PositionEnter"@), "990,1036"@)
        .insert(("UserInterfaceLobby"@, "Enter"@), "0xFFFFFF"@)
        .insert(("UserInterfaceGeneral"@, "PositionOutOfLoadingScreen"@), "811,794;75,1048"@)
        .insert(("UserInterfaceGeneral"@, "OutOfLoadingScreen"@), "0xED5E11,0x000001"@)
        .insert(("UserInterfaceGeneral"@, "PositionLoadingScreen"@), "1861,1062"@)
        .insert(("UserInterfaceGeneral"@, "LoadingScreen"@), "0x090303"@)
        .insert(("UserInterfaceGeneral"@, "PositionExit"@), "1770,870"@)
        .insert(("UserInterfaceDungeon"@, "PositionPortalIcon"@), "1152,715"@)
        .insert(("UserInterfaceDungeon"@, "PortalIcon"@), "0xFEAA00"@)
        .insert(("UserInterfaceDungeon"@, "PositionExitPortalIcon"@), "1148,724"@)
        .insert(("UserInterfaceDungeon"@, "ExitPortalIcon"@), "0xFFE10A"@)
        .insert(("UserInterfaceDungeon"@, "PositionDynamicQuest"@), "1590,718;1594,968"@)
        .insert(("UserInterfaceDungeon"@, "DynamicQuest"@), "0xE38658,0x58B54C"@)
        .insert(("UserInterfaceDungeon"@, "PositionDynamicReward"@), "1628,685"@)
        .insert(("UserInterfaceDungeon"@, "DynamicReward"@), "0x463E2C"@)
        .insert(("UserInterfaceDungeon"@, "PositionBonusRewardSelection"@), "1614,676"@)
        .insert(("UserInterfaceDungeon"@, "BonusRewardSelection"@), "0xBCA664"@)
        .insert(("UserInterfacePlayer"@, "PositionReviveVisible"@), "1042,900"@)
        .insert(("UserInterfacePlayer"@, "ReviveVisible"@), "0x9B8D71"@)
        .insert(("UserInterfacePlayer"@, "PositionThrallReady"@), "825,900"@)
        .insert(("UserInterfacePlayer"@, "ThrallReady"@), "0x01040E"@)
        .insert(("UserInterfacePlayer"@, "PositionOutOfCombat"@), "841,837"@)
        .insert(("UserInterfacePlayer"@, "OutOfCombat"@), "0xA0B930"@)
}

/// The default configuration of the Poharan bot, as it is written to a new configuration file.
pub fn poharan_defaults() -> (config: Configuration)
    ensures
        ini_settings(config.ini) == poharan_default_settings(),
        ini_section_order(config.ini) == seq![
            "Configuration"@,
            "Pointers"@,
            "Hotkeys"@,
            "UserInterfaceLobby"@,
            "UserInterfaceGeneral"@,
            "UserInterfaceDungeon"@,
            "UserInterfacePlayer"@,
        ],
{
    let mut doc = ini_new();
    proof {
        assert(ini_settings(doc) =~= Map::empty());
        reveal_strlit("Configuration");
        reveal_strlit("Pointers");
        reveal_strlit("Hotkeys");
        reveal_strlit("UserInterfaceLobby");
        reveal_strlit("UserInterfaceGeneral");
        reveal_strlit("UserInterfaceDungeon");
        reveal_strlit("UserInterfacePlayer");
    }
    ini_set(&mut doc, "Configuration", "FarmStage", "5");
    proof { assert(ini_section_order(doc)[0] == "Configuration"@); }
    ini_set(&mut doc, "Configuration", "AnimationSpeedHackValue", "10");
    proof { assert(ini_section_order(doc)[0] == "Configuration"@); }
    ini_set(&mut doc, "Configuration", "SlowAnimationSpeedHackValue", "6");
    proof { assert(ini_section_order(doc)[0] == "Configuration"@); }
    ini_set(&mut doc, "Configuration", "LogFile", "poharan_multibox.log");
    proof {
        assert(ini_section_order(doc) == seq!["Configuration"@]);
    }
    ini_set(&mut doc, "Pointers", "BaseAddressPlayer", "0x07536B40");
    proof { assert(ini_section_order(doc)[1] == "Pointers"@); }
    ini_set(&mut doc, "Pointers", "OffsetsAnimationSpeed", "0x30,0x2C0,0x98");
    proof { assert(ini_section_order(doc)[1] == "Pointers"@); }
    ini_set(&mut doc, "Pointers", "OffsetsCameraYaw", "");
    proof { assert(ini_section_order(doc)[1] == "Pointers"@); }
    ini_set(&mut doc, "Pointers", "OffsetsPlayerX", "0x30,0x2C0,0x130,0x1F0");
    proof { assert(ini_section_order(doc)[1] == "Pointers"@); }
    ini_set(&mut doc, "Pointers", "OffsetsPlayerY", "0x30,0x2C0,0x130,0x1F4");
    proof { assert(ini_section_order(doc)[1] == "Pointers"@); }
    ini_set(&mut doc, "Pointers", "OffsetsPlayerZ", "0x30,0x2C0,0x130,0x1F8");
    proof { assert(ini_section_order(doc)[1] == "Pointers"@); }
    ini_set(&mut doc, "Pointers", "BaseAddressDungeon", "0x074B5AF0");
    proof { assert(ini_section_order(doc)[1] == "Pointers"@); }
    ini_set(&mut doc, "Pointers", "OffsetsDungeonStage", "0xA0,0x8D8,0x28,0x1D0");
    proof { assert(ini_section_order(doc)[1] == "Pointers"@); }
    ini_set(&mut doc, "Pointers", "OffsetsLobbyNumber", "0xA0,0x8D8,0x28,0x20");
    proof {
        assert(ini_section_order(doc) == seq!["Configuration"@, "Pointers"@]);
    }
    ini_set(&mut doc, "Hotkeys", "AfterTaeJangum", "0x42,0x42");
    proof { assert(ini_section_order(doc)[2] == "Hotkeys"@); }
    ini_set(&mut doc, "Hotkeys", "ToggleAutoCombat", "0xA0,0x73");
    proof { assert(ini_section_order(doc)[2] == "Hotkeys"@); }
    ini_set(&mut doc, "Hotkeys", "CheatEngineSpeedHackOn", "0x91");
    proof { assert(ini_section_order(doc)[2] == "Hotkeys"@); }
    ini_set(&mut doc, "Hotkeys", "CheatEngineSpeedHackOff", "0x63");
    proof { assert(ini_section_order(doc)[2] == "Hotkeys"@); }
    ini_set(&mut doc, "Hotkeys", "FlyHackBoss1", "0x68");
    proof { assert(ini_section_order(doc)[2] == "Hotkeys"@); }
    ini_set(&mut doc, "Hotkeys", "FlyHackBoss2", "0x69");
    proof { assert(ini_section_order(doc)[2] == "Hotkeys"@); }
    ini_set(&mut doc, "Hotkeys", "DisableFlyHack", "0x64");
    proof { assert(ini_section_order(doc)[2] == "Hotkeys"@); }
    ini_set(&mut doc, "Hotkeys", "ShadowPlay", "0x12,0x79");
    proof {
        assert(ini_section_order(doc) == seq!["Configuration"@, "Pointers"@, "Hotkeys"@]);
    }
    ini_set(&mut doc, "UserInterfaceLobby", "PositionInF8Lobby", "23,34");
    proof { assert(ini_section_order(doc)[3] == "UserInterfaceLobby"@); }
    ini_set(&mut doc, "UserInterfaceLobby", "InF8Lobby", "0xCECECF");
    proof { assert(ini_section_order(doc)[3] == "UserInterfaceLobby"@); }
    ini_set(&mut doc, "UserInterfaceLobby", "PositionFindLobby", "1800,1025");
    proof { assert(ini_section_order(doc)[3] == "UserInterfaceLobby"@); }
    ini_set(&mut doc, "UserInterfaceLobby", "PositionHasJoinLobbyDialogue", "985,602");
    proof { assert(ini_section_order(doc)[3] == "UserInterfaceLobby"@); }
    ini_set(&mut doc, "UserInterfaceLobby", "HasJoinLobbyDialogue", "0xFFFFFF");
    proof { assert(ini_section_order(doc)[3] == "UserInterfaceLobby"@); }
    ini_set(&mut doc, "UserInterfaceLobby", "PositionIsReady", "940,1036");
    proof { assert(ini_section_order(doc)[3] == "UserInterfaceLobby"@); }
    ini_set(&mut doc, "UserInterfaceLobby", "IsReady", "0x898989,0xFFFFFF");
    proof { assert(ini_section_order(doc)[3] == "UserInterfaceLobby"@); }
    ini_set(&mut doc, "UserInterfaceLobby", "PositionReady", "962,1037");
    proof { assert(ini_section_order(doc)[3] == "UserInterfaceLobby"@); }
    ini_set(&mut doc, "UserInterfaceLobby", "PositionDungeonSelected", "1686,317");
    proof { assert(ini_section_order(doc)[3] == "UserInterfaceLobby"@); }
    ini_set(&mut doc, "UserInterfaceLobby", "DungeonSelected", "0x3E261C");
    proof { assert(ini_section_order(doc)[3] == "UserInterfaceLobby"@); }
    ini_set(&mut doc, "UserInterfaceLobby", "PositionClickDungeon", "1561,666");
    proof { assert(ini_section_order(doc)[3] == "UserInterfaceLobby"@); }
    ini_set(&mut doc, "UserInterfaceLobby", "PositionStageSelected", "1732,485");
    proof { assert(ini_section_order(doc)[3] == "UserInterfaceLobby"@); }
    ini_set(&mut doc, "UserInterfaceLobby", "StageSelected", "0xE2E2E2");
    proof { assert(ini_section_order(doc)[3] == "UserInterfaceLobby"@); }
    ini_set(&mut doc, "UserInterfaceLobby", "PositionStageRightSide", "1747,478");
    proof { assert(ini_section_order(doc)[3] == "UserInterfaceLobby"@); }
    ini_set(&mut doc, "UserInterfaceLobby", "PositionEnter", "990,1036");
    proof { assert(ini_section_order(doc)[3] == "UserInterfaceLobby"@); }
    ini_set(&mut doc, "UserInterfaceLobby", "Enter", "0xFFFFFF");
    proof {
        assert(ini_section_order(doc) == seq!["Configuration"@, "Pointers"@, "Hotkeys"@, "UserInterfaceLobby"@]);
    }
    ini_set(&mut doc, "UserInterfaceGeneral", "PositionOutOfLoadingScreen", "811,794;75,1048");
    proof { assert(ini_section_order(doc)[4] == "UserInterfaceGeneral"@); }
    ini_set(&mut doc, "UserInterfaceGeneral", "OutOfLoadingScreen", "0xED5E11,0x000001");
    proof { assert(ini_section_order(doc)[4] == "UserInterfaceGeneral"@); }
    ini_set(&mut doc, "UserInterfaceGeneral", "PositionLoadingScreen", "1861,1062");
    proof { assert(ini_section_order(doc)[4] == "UserInterfaceGeneral"@); }
    ini_set(&mut doc, "UserInterfaceGeneral", "LoadingScreen", "0x090303");
    proof { assert(ini_section_order(doc)[4] == "UserInterfaceGeneral"@); }
    ini_set(&mut doc, "UserInterfaceGeneral", "PositionExit", "1770,870");
    proof {
        assert(ini_section_order(doc) == seq!["Configuration"@, "Pointers"@, "Hotkeys"@, "UserInterfaceLobby"@, "UserInterfaceGeneral"@]);
    }
    proof {
        assert("UserInterfaceGeneral"@[13] != "UserInterfaceDungeon"@[13]);
    }
    ini_set(&mut doc, "UserInterfaceDungeon", "PositionPortalIcon", "1152,715");
    proof { assert(ini_section_order(doc)[5] == "UserInterfaceDungeon"@); }
    ini_set(&mut doc, "UserInterfaceDungeon", "PortalIcon", "0xFEAA00");
    proof { assert(ini_section_order(doc)[5] == "UserInterfaceDungeon"@); }
    ini_set(&mut doc, "UserInterfaceDungeon", "PositionExitPortalIcon", "1148,724");
    proof { assert(ini_section_order(doc)[5] == "UserInterfaceDungeon"@); }
    ini_set(&mut doc, "UserInterfaceDungeon", "ExitPortalIcon", "0xFFE10A");
    proof { assert(ini_section_order(doc)[5] == "UserInterfaceDungeon"@); }
    ini_set(&mut doc, "UserInterfaceDungeon", "PositionDynamicQuest", "1590,718;1594,968");
    proof { assert(ini_section_order(doc)[5] == "UserInterfaceDungeon"@); }
    ini_set(&mut doc, "UserInterfaceDungeon", "DynamicQuest", "0xE38658,0x58B54C");
    proof { assert(ini_section_order(doc)[5] == "UserInterfaceDungeon"@); }
    ini_set(&mut doc, "UserInterfaceDungeon", "PositionDynamicReward", "1628,685");
    proof { assert(ini_section_order(doc)[5] == "UserInterfaceDungeon"@); }
    ini_set(&mut doc, "UserInterfaceDungeon", "DynamicReward", "0x463E2C");
    proof { assert(ini_section_order(doc)[5] == "UserInterfaceDungeon"@); }
    ini_set(&mut doc, "UserInterfaceDungeon", "PositionBonusRewardSelection", "1614,676");
    proof { assert(ini_section_order(doc)[5] == "UserInterfaceDungeon"@); }
    ini_set(&mut doc, "UserInterfaceDungeon", "BonusRewardSelection", "0xBCA664");
    proof {
        assert(ini_section_order(doc) == seq!["Configuration"@, "Pointers"@, "Hotkeys"@, "UserInterfaceLobby"@, "UserInterfaceGeneral"@, "UserInterfaceDungeon"@]);
    }
    ini_set(&mut doc, "UserInterfacePlayer", "PositionReviveVisible", "1042,900");
    proof { assert(ini_section_order(doc)[6] == "UserInterfacePlayer"@); }
    ini_set(&mut doc, "UserInterfacePlayer", "ReviveVisible", "0x9B8D71");
    proof { assert(ini_section_order(doc)[6] == "UserInterfacePlayer"@); }
    ini_set(&mut doc, "UserInterfacePlayer", "PositionThrallReady", "825,900");
    proof { assert(ini_section_order(doc)[6] == "UserInterfacePlayer"@); }
    ini_set(&mut doc, "UserInterfacePlayer", "ThrallReady", "0x01040E");
    proof { assert(ini_section_order(doc)[6] == "UserInterfacePlayer"@); }
    ini_set(&mut doc, "UserInterfacePlayer", "PositionOutOfCombat", "841,837");
    proof { assert(ini_section_order(doc)[6] == "UserInterfacePlayer"@); }
    ini_set(&mut doc, "UserInterfacePlayer", "OutOfCombat", "0xA0B930");
    proof {
        assert(ini_section_order(doc) == seq!["Configuration"@, "Pointers"@, "Hotkeys"@, "UserInterfaceLobby"@, "UserInterfaceGeneral"@, "UserInterfaceDungeon"@, "UserInterfacePlayer"@]);
    }
    Configuration { ini: doc }
}

/// The settings that the Aerodrome experience bot writes when no configuration file exists yet.
pub open spec fn aerodrome_exp_default_settings() -> Map<(Seq<char>, Seq<char>), Seq<char>> {
    Map::empty()
        .insert(("Configuration"@, "FarmStage"@), "41"@)
        .insert(("Configuration"@, "AnimationSpeedHackValue"@), "5.5"@)
        .insert(("Configuration"@, "LogFile"@), "aerodrome_exp.log"@)
        .insert(("Pointers"@, "BaseAddressPlayer"@), "0x07537B40"@)
        .insert(("Pointers"@, "OffsetsAnimationSpeed"@), "0x30,0x2C0,0x98"@)
        .insert(("Pointers"@, "OffsetsCameraYaw"@), ""@)
        .insert(("Hotkeys"@, "UseSoup"@), "0x35"@)
        .insert(("Hotkeys"@, "UseExpCharm"@), "0x36"@)
        .insert(("Hotkeys"@, "UseRepairTools"@), "0x37"@)
        .insert(("Hotkeys"@, "CcDummies"@), "0x5A"@)
        .insert(("Hotkeys"@, "ToggleAutoCombat"@), "0xA0,0x73"@)
        .insert(("Hotkeys"@, "CheatEngineSpeedHackOn"@), "0x91"@)
        .insert(("Hotkeys"@, "CheatEngineSpeedHackOff"@), "0x63"@)
        .insert(("Hotkeys"@, "ShadowPlay"@), "0x12,0x79"@)
        .insert(("UserInterfaceLobby"@, "PositionDungeonSelected"@), "1686,317"@)
        .insert(("UserInterfaceLobby"@, "DungeonSelected"@), "0x4C3C23"@)
        .insert(("UserInterfaceLobby"@, "PositionClickDungeon"@), "1555,813"@)
        .insert(("UserInterfaceLobby"@, "PositionStageSelected"@), "1732,485"@)
        .insert(("UserInterfaceLobby"@, "StageSelected"@), "0xE2E2E2"@)
        .insert(("UserInterfaceLobby"@, "PositionStageRightSide"@), "1747,478"@)
        .insert(("UserInterfaceLobby"@, "PositionEnter"@), "990,1036"@)
        .insert(("UserInterfaceLobby"@, "Enter"@), "0xFFFFFF"@)
        .insert(("UserInterfaceLobby"@, "PositionInF8Lobby"@), "23,34"@)
        .insert(("UserInterfaceLobby"@, "InF8Lobby"@), "0xCECECF"@)
        .insert(("UserInterfaceGeneral"@, "PositionOutOfLoadingScreen"@), "811,794"@)
        .insert(("UserInterfaceGeneral"@, "OutOfLoadingScreen"@), "0xED5E11"@)
        .insert(("UserInterfaceGeneral"@, "PositionLoadingScreen"@), "1861,1062"@)
        .insert(("UserInterfaceGeneral"@, "LoadingScreen"@), "0x090303"@)
        .insert(("UserInterfaceGeneral"@, "PositionSoupActive"@), "20,6;55,7"@)
        .insert(("UserInterfaceGeneral"@, "SoupActive"@), "0x553A54,0x85693B"@)
        .insert(("UserInterfaceGeneral"@, "PositionExpCharmActive"@), "20,6;55,7"@)
        .insert(("UserInterfaceGeneral"@, "ExpCharmActive"@), "0x4D2C1A,0x9E6135"@)
        .insert(("UserInterfaceGeneral"@, "PositionEscape"@), "1520,842"@)
        .insert(("UserInterfacePlayer"@, "PositionReviveVisible"@), "1042,900"@)
        .insert(("UserInterfacePlayer"@, "ReviveVisible"@), "0x9B8D71"@)
        .insert(("UserInterfacePlayer"@, "PositionOutOfCombat"@), "841,837"@)
        .insert(("UserInterfacePlayer"@, "OutOfCombat"@), "0xA0B930"@)
}

/// The default configuration of the Aerodrome experience bot, as it is written to a new configuration file.
pub fn aerodrome_exp_defaults() -> (config: Configuration)
    ensures
        ini_settings(config.ini) == aerodrome_exp_default_settings(),
        ini_section_order(config.ini) == seq![
            "Configuration"@,
            "Pointers"@,
            "Hotkeys"@,
            "UserInterfaceLobby"@,
            "UserInterfaceGeneral"@,
            "UserInterfacePlayer"@,
        ],
{
    let mut doc = ini_new();
    proof {
        assert(ini_settings(doc) =~= Map::empty());
        reveal_strlit("Configuration");
        reveal_strlit("Pointers");
        reveal_strlit("Hotkeys");
        reveal_strlit("UserInterfaceLobby");
        reveal_strlit("UserInterfaceGeneral");
        reveal_strlit("UserInterfaceDungeon");
        reveal_strlit("UserInterfacePlayer");
    }
    ini_set(&mut doc, "Configuration", "FarmStage", "41");
    proof { assert(ini_section_order(doc)[0] == "Configuration"@); }
    ini_set(&mut doc, "Configuration", "AnimationSpeedHackValue", "5.5");
    proof { assert(ini_section_order(doc)[0] == "Configuration"@); }
    ini_set(&mut doc, "Configuration", "LogFile", "aerodrome_exp.log");
    proof {
        assert(ini_section_order(doc) == seq!["Configuration"@]);
    }
    ini_set(&mut doc, "Pointers", "BaseAddressPlayer", "0x07537B40");
    proof { assert(ini_section_order(doc)[1] == "Pointers"@); }
    ini_set(&mut doc, "Pointers", "OffsetsAnimationSpeed", "0x30,0x2C0,0x98");
    proof { assert(ini_section_order(doc)[1] == "Pointers"@); }
    ini_set(&mut doc, "Pointers", "OffsetsCameraYaw", "");
    proof {
        assert(ini_section_order(doc) == seq!["Configuration"@, "Pointers"@]);
    }
    ini_set(&mut doc, "Hotkeys", "UseSoup", "0x35");
    proof { assert(ini_section_order(doc)[2] == "Hotkeys"@); }
    ini_set(&mut doc, "Hotkeys", "UseExpCharm", "0x36");
    proof { assert(ini_section_order(doc)[2] == "Hotkeys"@); }
    ini_set(&mut doc, "Hotkeys", "UseRepairTools", "0x37");
    proof { assert(ini_section_order(doc)[2] == "Hotkeys"@); }
    ini_set(&mut doc, "Hotkeys", "CcDummies", "0x5A");
    proof { assert(ini_section_order(doc)[2] == "Hotkeys"@); }
    ini_set(&mut doc, "Hotkeys", "ToggleAutoCombat", "0xA0,0x73");
    proof { assert(ini_section_order(doc)[2] == "Hotkeys"@); }
    ini_set(&mut doc, "Hotkeys", "CheatEngineSpeedHackOn", "0x91");
    proof { assert(ini_section_order(doc)[2] == "Hotkeys"@); }
    ini_set(&mut doc, "Hotkeys", "CheatEngineSpeedHackOff", "0x63");
    proof { assert(ini_section_order(doc)[2] == "Hotkeys"@); }
    ini_set(&mut doc, "Hotkeys", "ShadowPlay", "0x12,0x79");
    proof {
        assert(ini_section_order(doc) == seq!["Configuration"@, "Pointers"@, "Hotkeys"@]);
    }
    ini_set(&mut doc, "UserInterfaceLobby", "PositionDungeonSelected", "1686,317");
    proof { assert(ini_section_order(doc)[3] == "UserInterfaceLobby"@); }
    ini_set(&mut doc, "UserInterfaceLobby", "DungeonSelected", "0x4C3C23");
    proof { assert(ini_section_order(doc)[3] == "UserInterfaceLobby"@); }
    ini_set(&mut doc, "UserInterfaceLobby", "PositionClickDungeon", "1555,813");
    proof { assert(ini_section_order(doc)[3] == "UserInterfaceLobby"@); }
    ini_set(&mut doc, "UserInterfaceLobby", "PositionStageSelected", "1732,485");
    proof { assert(ini_section_order(doc)[3] == "UserInterfaceLobby"@); }
    ini_set(&mut doc, "UserInterfaceLobby", "StageSelected", "0xE2E2E2");
    proof { assert(ini_section_order(doc)[3] == "UserInterfaceLobby"@); }
    ini_set(&mut doc, "UserInterfaceLobby", "PositionStageRightSide", "1747,478");
    proof { assert(ini_section_order(doc)[3] == "UserInterfaceLobby"@); }
    ini_set(&mut doc, "UserInterfaceLobby", "PositionEnter", "990,1036");
    proof { assert(ini_section_order(doc)[3] == "UserInterfaceLobby"@); }
    ini_set(&mut doc, "UserInterfaceLobby", "Enter", "0xFFFFFF");
    proof { assert(ini_section_order(doc)[3] == "UserInterfaceLobby"@); }
    ini_set(&mut doc, "UserInterfaceLobby", "PositionInF8Lobby", "23,34");
    proof { assert(ini_section_order(doc)[3] == "UserInterfaceLobby"@); }
    ini_set(&mut doc, "UserInterfaceLobby", "InF8Lobby", "0xCECECF");
    proof {
        assert(ini_section_order(doc) == seq!["Configuration"@, "Pointers"@, "Hotkeys"@, "UserInterfaceLobby"@]);
    }
    ini_set(&mut doc, "UserInterfaceGeneral", "PositionOutOfLoadingScreen", "811,794");
    proof { assert(ini_section_order(doc)[4] == "UserInterfaceGeneral"@); }
    ini_set(&mut doc, "UserInterfaceGeneral", "OutOfLoadingScreen", "0xED5E11");
    proof { assert(ini_section_order(doc)[4] == "UserInterfaceGeneral"@); }
    ini_set(&mut doc, "UserInterfaceGeneral", "PositionLoadingScreen", "1861,1062");
    proof { assert(ini_section_order(doc)[4] == "UserInterfaceGeneral"@); }
    ini_set(&mut doc, "UserInterfaceGeneral", "LoadingScreen", "0x090303");
    proof { assert(ini_section_order(doc)[4] == "UserInterfaceGeneral"@); }
    ini_set(&mut doc, "UserInterfaceGeneral", "PositionSoupActive", "20,6;55,7");
    proof { assert(ini_section_order(doc)[4] == "UserInterfaceGeneral"@); }
    ini_set(&mut doc, "UserInterfaceGeneral", "SoupActive", "0x553A54,0x85693B");
    proof { assert(ini_section_order(doc)[4] == "UserInterfaceGeneral"@); }
    ini_set(&mut doc, "UserInterfaceGeneral", "PositionExpCharmActive", "20,6;55,7");
    proof { assert(ini_section_order(doc)[4] == "UserInterfaceGeneral"@); }
    ini_set(&mut doc, "UserInterfaceGeneral", "ExpCharmActive", "0x4D2C1A,0x9E6135");
    proof { assert(ini_section_order(doc)[4] == "UserInterfaceGeneral"@); }
    ini_set(&mut doc, "UserInterfaceGeneral", "PositionEscape", "1520,842");
    proof {
        assert(ini_section_order(doc) == seq!["Configuration"@, "Pointers"@, "Hotkeys"@, "UserInterfaceLobby"@, "UserInterfaceGeneral"@]);
    }
    ini_set(&mut doc, "UserInterfacePlayer", "PositionReviveVisible", "1042,900");
    proof { assert(ini_section_order(doc)[5] == "UserInterfacePlayer"@); }
    ini_set(&mut doc, "UserInterfacePlayer", "ReviveVisible", "0x9B8D71");
    proof { assert(ini_section_order(doc)[5] == "UserInterfacePlayer"@); }
    ini_set(&mut doc, "UserInterfacePlayer", "PositionOutOfCombat", "841,837");
    proof { assert(ini_section_order(doc)[5] == "UserInterfacePlayer"@); }
    ini_set(&mut doc, "UserInterfacePlayer", "OutOfCombat", "0xA0B930");
    proof {
        assert(ini_section_order(doc) == seq!["Configuration"@, "Pointers"@, "Hotkeys"@, "UserInterfaceLobby"@, "UserInterfaceGeneral"@, "UserInterfacePlayer"@]);
    }
    Configuration { ini: doc }
}

} // verus!

verus! {

proof fn lemma_hex_digit_reads_back(v: int)
    requires
        0 <= v < 16,
    ensures
        crate::text::digit_value(crate::text::hex_digit(v), 16) == Some(v),
{
}

/// A colour written by [`pixel_hex`] reads back, as the bots read colour
/// settings, to the pixel's `0xRRGGBB` value: writing a pixel's colour and
/// parsing it as a hexadecimal setting undo each other.
pub proof fn lemma_pixel_hex_reads_back(pixel: u32)
    ensures
        parse_unsigned_spec(strip_hex_prefix(pixel_hex_spec(pixel)), 16, 0xFF_FFFF) == Some(
            crate::color::red_of(pixel) * 65536 + crate::color::green_of(pixel) * 256 + crate::color::blue_of(pixel),
        ),
{
    let r = crate::color::red_of(pixel);
    let g = crate::color::green_of(pixel);
    let b = crate::color::blue_of(pixel);
    let s = pixel_hex_spec(pixel);
    let d = s.skip(2);
    assert(0 <= r < 256 && 0 <= g < 256 && 0 <= b < 256);
    lemma_hex_digit_reads_back(r / 16);
    lemma_hex_digit_reads_back(r % 16);
    lemma_hex_digit_reads_back(g / 16);
    lemma_hex_digit_reads_back(g % 16);
    lemma_hex_digit_reads_back(b / 16);
    lemma_hex_digit_reads_back(b % 16);
    assert(d =~= seq![
        crate::text::hex_digit(r / 16),
        crate::text::hex_digit(r % 16),
        crate::text::hex_digit(g / 16),
        crate::text::hex_digit(g % 16),
        crate::text::hex_digit(b / 16),
        crate::text::hex_digit(b % 16),
    ]);
    assert(strip_hex_prefix(d) == d);
    assert(strip_hex_prefix(s) == strip_hex_prefix(d));
    assert(crate::text::unsigned_digits(d) == d);
    assert(d.drop_last().drop_last().drop_last().drop_last().drop_last().drop_last().len() == 0);
    reveal_with_fuel(digits_value, 7);
    assert(digits_value(d, 16) == Some(((((r / 16 * 16 + r % 16) * 16 + g / 16) * 16 + g % 16) * 16 + b / 16) * 16 + b % 16));
    assert(r / 16 * 16 + r % 16 == r);
    assert(g / 16 * 16 + g % 16 == g);
    assert(b / 16 * 16 + b % 16 == b);
}

} // verus!
