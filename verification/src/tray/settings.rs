//! Persistent settings: the EQ preset and LED color are saved by name.
//!
//! Loading and saving the file is done by the application; this module holds
//! the settings and the name tables.

use vstd::prelude::*;

verus! {

/// Saved settings.
#[derive(Debug, Clone)]
pub struct Settings {
    pub sidetone: bool,
    pub eq_preset: String,
    pub led_color: Option<String>,
    pub auto_sleep_minutes: u64,
}

/// The name of the default EQ preset.
pub open spec fn default_eq_name() -> Seq<char> {
    "pure-direct"@
}

/// The EQ preset names, by index.
pub open spec fn eq_names() -> Seq<Seq<char>> {
    seq!["pure-direct"@, "bass-boost"@, "clear-chat"@, "fps"@, "movie"@]
}

/// The index of the EQ preset named `name`; 0 for an unknown name.
pub open spec fn eq_index_of(name: Seq<char>) -> u8 {
    if name == eq_names()[0] { 0 }
    else if name == eq_names()[1] { 1 }
    else if name == eq_names()[2] { 2 }
    else if name == eq_names()[3] { 3 }
    else if name == eq_names()[4] { 4 }
    else { 0 }
}

/// The name saved for EQ preset `idx`; the default preset's for an unknown index.
pub open spec fn eq_name_of(idx: u8) -> Seq<char> {
    if idx < 5 { eq_names()[idx as int] } else { default_eq_name() }
}

/// The LED color names and their RGB values.
pub open spec fn led_table() -> Seq<(Seq<char>, (u8, u8, u8))> {
    seq![
        ("white"@, (255u8, 255u8, 255u8)),
        ("red"@, (255u8, 0u8, 0u8)),
        ("green"@, (0u8, 255u8, 0u8)),
        ("blue"@, (0u8, 0u8, 255u8)),
        ("cyan"@, (0u8, 255u8, 255u8)),
        ("purple"@, (255u8, 0u8, 255u8)),
        ("orange"@, (255u8, 165u8, 0u8)),
        ("yellow"@, (255u8, 255u8, 0u8)),
    ]
}

/// The RGB value of the first table entry named `name`.
pub open spec fn led_rgb_of_in(t: Seq<(Seq<char>, (u8, u8, u8))>, name: Seq<char>) -> Option<(u8, u8, u8)>
    decreases t.len(),
{
    if t.len() == 0 { None }
    else if t[0].0 == name { Some(t[0].1) }
    else { led_rgb_of_in(t.drop_first(), name) }
}

/// The name of the first table entry with RGB value `rgb`.
pub open spec fn led_name_of_in(t: Seq<(Seq<char>, (u8, u8, u8))>, rgb: (u8, u8, u8)) -> Option<Seq<char>>
    decreases t.len(),
{
    if t.len() == 0 { None }
    else if t[0].1 == rgb { Some(t[0].0) }
    else { led_name_of_in(t.drop_first(), rgb) }
}

/// The RGB value of the LED color named `name`.
pub open spec fn led_rgb_of(name: Seq<char>) -> Option<(u8, u8, u8)> {
    led_rgb_of_in(led_table(), name)
}

/// The name of the LED color with RGB value `rgb`.
pub open spec fn led_name_of(rgb: (u8, u8, u8)) -> Option<Seq<char>> {
    led_name_of_in(led_table(), rgb)
}

fn eq_name_string(i: u8) -> (s: String)
    requires
        i < 5,
    ensures
        s@ == eq_names()[i as int],
{
    if i == 0 { String::from_str("pure-direct") }
    else if i == 1 { String::from_str("bass-boost") }
    else if i == 2 { String::from_str("clear-chat") }
    else if i == 3 { String::from_str("fps") }
    else { String::from_str("movie") }
}

fn led_entry(i: usize) -> (e: (String, u8, u8, u8))
    requires
        i < 8,
    ensures
        e.0@ == led_table()[i as int].0,
        (e.1, e.2, e.3) == led_table()[i as int].1,
{
    if i == 0 { (String::from_str("white"), 255, 255, 255) }
    else if i == 1 { (String::from_str("red"), 255, 0, 0) }
    else if i == 2 { (String::from_str("green"), 0, 255, 0) }
    else if i == 3 { (String::from_str("blue"), 0, 0, 255) }
    else if i == 4 { (String::from_str("cyan"), 0, 255, 255) }
    else if i == 5 { (String::from_str("purple"), 255, 0, 255) }
    else if i == 6 { (String::from_str("orange"), 255, 165, 0) }
    else { (String::from_str("yellow"), 255, 255, 0) }
}

impl Default for Settings {
    fn default() -> (s: Self)
        ensures
            s.sidetone,
            s.eq_preset@ == default_eq_name(),
            s.led_color is None,
            s.auto_sleep_minutes == 0,
    {
        Self {
            sidetone: true,
            eq_preset: String::from_str("pure-direct"),
            led_color: None,
            auto_sleep_minutes: 0,
        }
    }
}

impl Settings {
    /// The index of the saved EQ preset (0 when the name is unknown).
    pub fn eq_index(&self) -> (i: u8)
        ensures
            i == eq_index_of(self.eq_preset@),
    {
        let mut i: u8 = 0;
        while i < 5
            invariant
                i <= 5,
                forall|j: int| 0 <= j < i ==> eq_names()[j] != self.eq_preset@,
            decreases 5 - i,
        {
            let name = eq_name_string(i);
            if name == self.eq_preset {
                return i;
            }
            i = i + 1;
        }
        0
    }

    /// Save EQ preset `idx` by name (the default preset's for an unknown index).
    pub fn set_eq_index(&mut self, idx: u8)
        ensures
            final(self).eq_preset@ == eq_name_of(idx),
            final(self).sidetone == old(self).sidetone,
            final(self).led_color == old(self).led_color,
            final(self).auto_sleep_minutes == old(self).auto_sleep_minutes,
    {
        self.eq_preset = if idx < 5 { eq_name_string(idx) } else { String::from_str("pure-direct") };
    }

    /// The RGB value of the saved LED color, if it has a known name.
    pub fn led_rgb(&self) -> (c: Option<[u8; 3]>)
        ensures
            match self.led_color {
                None => c is None,
                Some(name) => match led_rgb_of(name@) {
                    None => c is None,
                    Some(rgb) => c matches Some(a) && a@ == seq![rgb.0, rgb.1, rgb.2],
                },
            },
    {
        match &self.led_color {
            None => None,
            Some(name) => {
                let mut i: usize = 0;
                assert(led_table().skip(0) =~= led_table());
                while i < 8
                    invariant
                        i <= 8,
                        self.led_color == Some(*name),
                        led_rgb_of(name@) == led_rgb_of_in(led_table().skip(i as int), name@),
                    decreases 8 - i,
                {
                    assert(led_table().skip(i as int).drop_first() =~= led_table().skip(i as int + 1));
                    let (n, r, g, b) = led_entry(i);
                    if n == *name {
                        assert(led_table().skip(i as int)[0] == led_table()[i as int]);
                        assert(led_rgb_of(name@) == Some((r, g, b)));
                        let a = [r, g, b];
                        assert(a@ =~= seq![r, g, b]);
                        return Some(a);
                    }
                    i = i + 1;
                }
                None
            },
        }
    }

    /// Save the LED color by name, or none when `r, g, b` has no name.
    pub fn set_led_rgb(&mut self, r: u8, g: u8, b: u8)
        ensures
            match led_name_of((r, g, b)) {
                None => final(self).led_color is None,
                Some(name) => final(self).led_color matches Some(s) && s@ == name,
            },
            final(self).sidetone == old(self).sidetone,
            final(self).eq_preset == old(self).eq_preset,
            final(self).auto_sleep_minutes == old(self).auto_sleep_minutes,
    {
        let mut i: usize = 0;
        assert(led_table().skip(0) =~= led_table());
        while i < 8
            invariant
                i <= 8,
                *self == *old(self),
                led_name_of((r, g, b)) == led_name_of_in(led_table().skip(i as int), (r, g, b)),
            decreases 8 - i,
        {
            assert(led_table().skip(i as int).drop_first() =~= led_table().skip(i as int + 1));
            let (n, er, eg, eb) = led_entry(i);
            if er == r && eg == g && eb == b {
                self.led_color = Some(n);
                return;
            }
            i = i + 1;
        }
        self.led_color = None;
    }
}

/// Saving an EQ preset by index and reading it back gives the index, for
/// every preset index 0–4; other indices read back as the default preset 0.
pub proof fn lemma_eq_index_roundtrip(idx: u8)
    ensures
        eq_index_of(eq_name_of(idx)) == if idx < 5 { idx } else { 0 },
{
    reveal_strlit("pure-direct");
    reveal_strlit("bass-boost");
    reveal_strlit("clear-chat");
    reveal_strlit("fps");
    reveal_strlit("movie");
    let n = eq_names();
    assert(n[0].len() == 11 && n[1].len() == 10 && n[2].len() == 10 && n[3].len() == 3 && n[4].len() == 5);
    assert(n[1][0] == 'b' && n[2][0] == 'c');
}

/// The first entry of a table with a given RGB value is an entry with that
/// value, and no earlier entry has it.
proof fn lemma_led_name_found(t: Seq<(Seq<char>, (u8, u8, u8))>, rgb: (u8, u8, u8))
    ensures
        led_name_of_in(t, rgb) matches Some(n) ==> exists|i: int| 0 <= i < t.len() && #[trigger] t[i].1 == rgb && t[i].0 == n
            && forall|j: int| 0 <= j < i ==> #[trigger] t[j].1 != rgb,
        led_name_of_in(t, rgb) is None ==> forall|j: int| 0 <= j < t.len() ==> #[trigger] t[j].1 != rgb,
    decreases t.len(),
{
    if t.len() > 0 {
        lemma_led_name_found(t.drop_first(), rgb);
        if t[0].1 != rgb {
            if let Some(n) = led_name_of_in(t, rgb) {
                let k = choose|k: int| 0 <= k < t.drop_first().len() && #[trigger] t.drop_first()[k].1 == rgb
                    && t.drop_first()[k].0 == n && forall|j: int| 0 <= j < k ==> #[trigger] t.drop_first()[j].1 != rgb;
                assert(t[k + 1].1 == rgb && t[k + 1].0 == n);
                assert forall|j: int| 0 <= j < k + 1 implies #[trigger] t[j].1 != rgb by {
                    if j > 0 {
                        assert(t[j] == t.drop_first()[j - 1]);
                    }
                }
            } else {
                assert forall|j: int| 0 <= j < t.len() implies #[trigger] t[j].1 != rgb by {
                    if j > 0 {
                        assert(t[j] == t.drop_first()[j - 1]);
                    }
                }
            }
        }
    }
}

/// In a table whose names are distinct, looking up an entry's name gives
/// that entry's RGB value.
proof fn lemma_led_rgb_found(t: Seq<(Seq<char>, (u8, u8, u8))>, i: int)
    requires
        0 <= i < t.len(),
        forall|j: int| 0 <= j < t.len() && j != i ==> #[trigger] t[j].0 != t[i].0,
    ensures
        led_rgb_of_in(t, t[i].0) == Some(t[i].1),
    decreases t.len(),
{
    if i > 0 {
        let s = t.drop_first();
        assert forall|j: int| 0 <= j < s.len() && j != i - 1 implies #[trigger] s[j].0 != s[i - 1].0 by {
            assert(s[j] == t[j + 1]);
        }
        lemma_led_rgb_found(s, i - 1);
    }
}

/// The LED color names are distinct.
proof fn lemma_led_names_distinct()
    ensures
        forall|j: int, k: int| 0 <= j < 8 && 0 <= k < 8 && j != k ==> #[trigger] led_table()[j].0 != #[trigger] led_table()[k].0,
{
    reveal_strlit("white");
    reveal_strlit("red");
    reveal_strlit("green");
    reveal_strlit("blue");
    reveal_strlit("cyan");
    reveal_strlit("purple");
    reveal_strlit("orange");
    reveal_strlit("yellow");
    let t = led_table();
    assert(t[0].0.len() == 5 && t[0].0[0] == 'w');
    assert(t[1].0.len() == 3);
    assert(t[2].0.len() == 5 && t[2].0[0] == 'g');
    assert(t[3].0.len() == 4 && t[3].0[0] == 'b');
    assert(t[4].0.len() == 4 && t[4].0[0] == 'c');
    assert(t[5].0.len() == 6 && t[5].0[0] == 'p');
    assert(t[6].0.len() == 6 && t[6].0[0] == 'o');
    assert(t[7].0.len() == 6 && t[7].0[0] == 'y');
}

/// Saving an LED color by name and reading it back gives the color, for every
/// color in the table; a color without a name saves no name.
pub proof fn lemma_led_rgb_roundtrip(rgb: (u8, u8, u8))
    ensures
        led_name_of(rgb) matches Some(name) ==> led_rgb_of(name) == Some(rgb),
        led_name_of(rgb) is None ==> forall|i: int| 0 <= i < led_table().len() ==> #[trigger] led_table()[i].1 != rgb,
{
    let t = led_table();
    lemma_led_name_found(t, rgb);
    if let Some(name) = led_name_of(rgb) {
        let i = choose|i: int| 0 <= i < t.len() && #[trigger] t[i].1 == rgb && t[i].0 == name
            && forall|j: int| 0 <= j < i ==> #[trigger] t[j].1 != rgb;
        lemma_led_names_distinct();
        lemma_led_rgb_found(t, i);
    }
}

/// The eight LED color names and their RGB values, both ways: white
/// (255,255,255), red (255,0,0), green (0,255,0), blue (0,0,255), cyan
/// (0,255,255), purple (255,0,255), orange (255,165,0), yellow (255,255,0).
pub proof fn lemma_led_color_names()
    ensures
        led_rgb_of("white"@) == Some((255u8, 255u8, 255u8)),
        led_rgb_of("red"@) == Some((255u8, 0u8, 0u8)),
        led_rgb_of("green"@) == Some((0u8, 255u8, 0u8)),
        led_rgb_of("blue"@) == Some((0u8, 0u8, 255u8)),
        led_rgb_of("cyan"@) == Some((0u8, 255u8, 255u8)),
        led_rgb_of("purple"@) == Some((255u8, 0u8, 255u8)),
        led_rgb_of("orange"@) == Some((255u8, 165u8, 0u8)),
        led_rgb_of("yellow"@) == Some((255u8, 255u8, 0u8)),
        led_name_of((255u8, 255u8, 255u8)) == Some("white"@),
        led_name_of((255u8, 0u8, 0u8)) == Some("red"@),
        led_name_of((0u8, 255u8, 0u8)) == Some("green"@),
        led_name_of((0u8, 0u8, 255u8)) == Some("blue"@),
        led_name_of((0u8, 255u8, 255u8)) == Some("cyan"@),
        led_name_of((255u8, 0u8, 255u8)) == Some("purple"@),
        led_name_of((255u8, 165u8, 0u8)) == Some("orange"@),
        led_name_of((255u8, 255u8, 0u8)) == Some("yellow"@),
{
    let t = led_table();
    lemma_led_names_distinct();
    lemma_led_rgb_found(t, 0);
    lemma_led_rgb_found(t, 1);
    lemma_led_rgb_found(t, 2);
    lemma_led_rgb_found(t, 3);
    lemma_led_rgb_found(t, 4);
    lemma_led_rgb_found(t, 5);
    lemma_led_rgb_found(t, 6);
    lemma_led_rgb_found(t, 7);
    reveal_with_fuel(led_name_of_in, 9);
    assert(t.drop_first() =~= t.subrange(1, 8));
    assert(t.drop_first().drop_first() =~= t.subrange(2, 8));
    assert(t.subrange(2, 8).drop_first() =~= t.subrange(3, 8));
    assert(t.subrange(3, 8).drop_first() =~= t.subrange(4, 8));
    assert(t.subrange(4, 8).drop_first() =~= t.subrange(5, 8));
    assert(t.subrange(5, 8).drop_first() =~= t.subrange(6, 8));
    assert(t.subrange(6, 8).drop_first() =~= t.subrange(7, 8));
}

/// The EQ preset names by index: 0 pure-direct, 1 bass-boost, 2 clear-chat,
/// 3 fps, 4 movie; a saved name reads back as its index, an unknown name as 0.
pub proof fn lemma_eq_preset_names()
    ensures
        eq_name_of(0) == "pure-direct"@,
        eq_name_of(1) == "bass-boost"@,
        eq_name_of(2) == "clear-chat"@,
        eq_name_of(3) == "fps"@,
        eq_name_of(4) == "movie"@,
        eq_index_of("pure-direct"@) == 0,
        eq_index_of("bass-boost"@) == 1,
        eq_index_of("clear-chat"@) == 2,
        eq_index_of("fps"@) == 3,
        eq_index_of("movie"@) == 4,
{
    lemma_eq_index_roundtrip(0);
    lemma_eq_index_roundtrip(1);
    lemma_eq_index_roundtrip(2);
    lemma_eq_index_roundtrip(3);
    lemma_eq_index_roundtrip(4);
}

} // verus!
