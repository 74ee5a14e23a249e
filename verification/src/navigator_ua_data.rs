//! `navigator.userAgentData`: the persona's brand list, parsed from a
//! `Sec-CH-UA`-style preference, and the high-entropy values built from it.

use vstd::prelude::*;
use crate::text::{
    char_index, find_char_from, lemma_char_index, lemma_split_on_joined, split_on, str_eq, trim,
    trim_bounds,
};

verus! {

/// One entry of the brand list (`NavigatorUABrandVersion`).
pub struct BrandVersion {
    pub brand: String,
    pub version: String,
}

/// The text of a brand entry.
pub struct BrandVersionView {
    pub brand: Seq<char>,
    pub version: Seq<char>,
}

impl View for BrandVersion {
    type V = BrandVersionView;

    open spec fn view(&self) -> BrandVersionView {
        BrandVersionView { brand: self.brand@, version: self.version@ }
    }
}

/// The brand and version found so far in one comma-separated entry.
pub type BrandState = (Option<Seq<char>>, Option<Seq<char>>);

/// What one `;`-separated part of an entry contributes, once trimmed: a quoted
/// part is the brand; a part starting with `v="` is the version when it also
/// ends with a quote, and clears the version when it does not; any other part
/// changes nothing.
pub open spec fn brand_part_update(state: BrandState, part: Seq<char>) -> BrandState {
    let p = trim(part);
    if p.len() >= 2 && p[0] == '"' && p[p.len() - 1] == '"' {
        (Some(p.subrange(1, p.len() - 1)), state.1)
    } else if p.len() >= 3 && p[0] == 'v' && p[1] == '=' && p[2] == '"' {
        (state.0, if p.len() >= 4 && p[p.len() - 1] == '"' {
            Some(p.subrange(3, p.len() - 1))
        } else {
            None
        })
    } else {
        state
    }
}

/// The state after the parts `parts`, taken in order, starting from `state`.
pub open spec fn brand_parts_state(parts: Seq<Seq<char>>, state: BrandState) -> BrandState
    decreases parts.len(),
{
    if parts.len() == 0 {
        state
    } else {
        brand_parts_state(parts.drop_first(), brand_part_update(state, parts[0]))
    }
}

/// The brand entry an entry of the list describes, when it names both a brand
/// and a version.
pub open spec fn entry_brand(entry: Seq<char>) -> Option<BrandVersionView> {
    match brand_parts_state(split_on(entry, ';'), (None, None)) {
        (Some(brand), Some(version)) => Some(BrandVersionView { brand, version }),
        _ => None,
    }
}

/// The brand entries of the comma-separated entries `entries`, in order,
/// skipping those that lack a brand or a version.
pub open spec fn collected_brands(entries: Seq<Seq<char>>) -> Seq<BrandVersionView>
    decreases entries.len(),
{
    if entries.len() == 0 {
        Seq::empty()
    } else {
        match entry_brand(entries[0]) {
            Some(b) => seq![b] + collected_brands(entries.drop_first()),
            None => collected_brands(entries.drop_first()),
        }
    }
}

/// The brand list used when the preference yields no entry.
pub open spec fn default_brands() -> Seq<BrandVersionView> {
    seq![
        BrandVersionView { brand: "Chromium"@, version: "136"@ },
        BrandVersionView { brand: "Google Chrome"@, version: "136"@ },
        BrandVersionView { brand: "Not.A/Brand"@, version: "99"@ },
    ]
}

/// The brand list a preference value describes.
pub open spec fn parsed_brands(input: Seq<char>) -> Seq<BrandVersionView> {
    let found = collected_brands(split_on(input, ','));
    if found.len() == 0 {
        default_brands()
    } else {
        found
    }
}

type RangeState = (Option<(usize, usize)>, Option<(usize, usize)>);

spec fn range_text(v: Seq<char>, r: Option<(usize, usize)>) -> Option<Seq<char>> {
    match r {
        Some((a, b)) => Some(v.subrange(a as int, b as int)),
        None => None,
    }
}

spec fn range_ok(v: Seq<char>, r: Option<(usize, usize)>) -> bool {
    match r {
        Some((a, b)) => a <= b <= v.len(),
        None => true,
    }
}

spec fn state_text(v: Seq<char>, s: RangeState) -> BrandState {
    (range_text(v, s.0), range_text(v, s.1))
}

spec fn state_ok(v: Seq<char>, s: RangeState) -> bool {
    range_ok(v, s.0) && range_ok(v, s.1)
}

fn update_with_part(v: &Vec<char>, start: usize, end: usize, state: RangeState) -> (r: RangeState)
    requires
        start <= end <= v@.len(),
        state_ok(v@, state),
    ensures
        state_ok(v@, r),
        state_text(v@, r) == brand_part_update(state_text(v@, state), v@.subrange(start as int, end as int)),
{
    let (a, b) = trim_bounds(v, start, end);
    let ghost p = v@.subrange(a as int, b as int);
    assert(p.len() == b - a);
    if b - a >= 2 && v[a] == '"' && v[b - 1] == '"' {
        assert(p[0] == v@[a as int] && p[p.len() - 1] == v@[b - 1]);
        assert(p.subrange(1, p.len() - 1) =~= v@.subrange(a + 1, b - 1));
        (Some((a + 1, b - 1)), state.1)
    } else if b - a >= 3 && v[a] == 'v' && v[a + 1] == '=' && v[a + 2] == '"' {
        assert(p[0] == v@[a as int] && p[1] == v@[a + 1] && p[2] == v@[a + 2]);
        assert(p.len() >= 2 ==> p[p.len() - 1] == v@[b - 1]);
        if b - a >= 4 && v[b - 1] == '"' {
            assert(p.subrange(3, p.len() - 1) =~= v@.subrange(a + 3, b - 1));
            (state.0, Some((a + 3, b - 1)))
        } else {
            (state.0, None)
        }
    } else {
        assert(p.len() >= 1 ==> p[0] == v@[a as int]);
        assert(p.len() >= 2 ==> p[p.len() - 1] == v@[b - 1]);
        assert(p.len() >= 3 ==> p[1] == v@[a + 1] && p[2] == v@[a + 2]);
        state
    }
}

proof fn lemma_split_step(v: Seq<char>, start: int, end: int, c: char)
    requires
        0 <= start <= end <= v.len(),
    ensures
        match char_index(v.subrange(start, end), c) {
            Some(i) => split_on(v.subrange(start, end), c) == seq![v.subrange(start, start + i)]
                + split_on(v.subrange(start + i + 1, end), c),
            None => split_on(v.subrange(start, end), c) == seq![v.subrange(start, end)],
        },
{
    let s = v.subrange(start, end);
    lemma_char_index(s, c);
    match char_index(s, c) {
        Some(i) => {
            assert(s.subrange(0, i) =~= v.subrange(start, start + i));
            assert(s.subrange(i + 1, s.len() as int) =~= v.subrange(start + i + 1, end));
        },
        None => {},
    }
}

fn entry_state(v: &Vec<char>, pos: usize, end: usize, state: RangeState) -> (r: RangeState)
    requires
        pos <= end <= v@.len(),
        state_ok(v@, state),
    ensures
        state_ok(v@, r),
        state_text(v@, r) == brand_parts_state(
            split_on(v@.subrange(pos as int, end as int), ';'),
            state_text(v@, state),
        ),
    decreases end - pos,
{
    proof {
        lemma_split_step(v@, pos as int, end as int, ';');
    }
    let next = find_char_from(v, ';', pos, end);
    match next {
        Some(k) => {
            let updated = update_with_part(v, pos, k, state);
            let r = entry_state(v, k + 1, end, updated);
            proof {
                let parts = split_on(v@.subrange(pos as int, end as int), ';');
                let rest = split_on(v@.subrange(k + 1, end as int), ';');
                assert(char_index(v@.subrange(pos as int, end as int), ';') == Some(k - pos));
                assert(parts == seq![v@.subrange(pos as int, k as int)] + rest);
                assert(parts.drop_first() =~= rest);
                assert(parts[0] == v@.subrange(pos as int, k as int));
                assert(parts.len() > 0);
                assert(brand_parts_state(parts, state_text(v@, state)) == brand_parts_state(
                    rest,
                    brand_part_update(state_text(v@, state), parts[0]),
                ));
                assert(state_text(v@, updated) == brand_part_update(state_text(v@, state), parts[0]));
                assert(state_text(v@, r) == brand_parts_state(rest, state_text(v@, updated)));
                assert(state_text(v@, r) == brand_parts_state(parts, state_text(v@, state)));
            }
            r
        },
        None => {
            let updated = update_with_part(v, pos, end, state);
            proof {
                let parts = split_on(v@.subrange(pos as int, end as int), ';');
                assert(char_index(v@.subrange(pos as int, end as int), ';') is None);
                assert(parts == seq![v@.subrange(pos as int, end as int)]);
                assert(parts.drop_first() =~= Seq::<Seq<char>>::empty());
                assert(brand_parts_state(parts, state_text(v@, state)) == brand_parts_state(
                    parts.drop_first(),
                    brand_part_update(state_text(v@, state), parts[0]),
                ));
            }
            updated
        },
    }
}

fn brand_of_entry(input: &str, v: &Vec<char>, pos: usize, end: usize) -> (r: Option<BrandVersion>)
    requires
        v@ == input@,
        pos <= end <= v@.len(),
    ensures
        match entry_brand(v@.subrange(pos as int, end as int)) {
            Some(b) => r matches Some(x) && x@ == b,
            None => r is None,
        },
{
    let st = entry_state(v, pos, end, (None, None));
    match st {
        (Some((a, b)), Some((c, d))) => {
            let brand = String::from_str(input.substring_char(a, b));
            let version = String::from_str(input.substring_char(c, d));
            Some(BrandVersion { brand, version })
        },
        _ => None,
    }
}

fn brands_from(input: &str, v: &Vec<char>, pos: usize) -> (r: Vec<BrandVersion>)
    requires
        v@ == input@,
        pos <= v@.len(),
    ensures
        r@.map_values(|b: BrandVersion| b@) == collected_brands(
            split_on(v@.subrange(pos as int, v@.len() as int), ','),
        ),
    decreases v@.len() - pos,
{
    let end: usize = v.len();
    proof {
        lemma_split_step(v@, pos as int, end as int, ',');
    }
    let next = find_char_from(v, ',', pos, end);
    let ghost entries = split_on(v@.subrange(pos as int, end as int), ',');
    match next {
        Some(k) => {
            let head = brand_of_entry(input, v, pos, k);
            let mut rest = brands_from(input, v, k + 1);
            proof {
                let rest_entries = split_on(v@.subrange(k + 1, end as int), ',');
                assert(char_index(v@.subrange(pos as int, end as int), ',') == Some(k - pos));
                assert(entries == seq![v@.subrange(pos as int, k as int)] + rest_entries);
                assert(entries.drop_first() =~= rest_entries);
                assert(entries[0] == v@.subrange(pos as int, k as int));
                assert(entries.len() > 0);
                assert(collected_brands(entries) == match entry_brand(entries[0]) {
                    Some(b) => seq![b] + collected_brands(rest_entries),
                    None => collected_brands(rest_entries),
                });
            }
            match head {
                Some(b) => {
                    let ghost before = rest@;
                    rest.insert(0, b);
                    assert(rest@.map_values(|b: BrandVersion| b@) =~= seq![b@] + before.map_values(|b: BrandVersion| b@));
                    rest
                },
                None => rest,
            }
        },
        None => {
            let head = brand_of_entry(input, v, pos, end);
            proof {
                assert(char_index(v@.subrange(pos as int, end as int), ',') is None);
                assert(entries == seq![v@.subrange(pos as int, end as int)]);
                assert(entries.drop_first() =~= Seq::<Seq<char>>::empty());
                assert(entries[0] == v@.subrange(pos as int, end as int));
                assert(collected_brands(entries) == match entry_brand(entries[0]) {
                    Some(b) => seq![b] + collected_brands(entries.drop_first()),
                    None => collected_brands(entries.drop_first()),
                });
            }
            let mut out: Vec<BrandVersion> = Vec::new();
            match head {
                Some(b) => {
                    out.push(b);
                    assert(out@.map_values(|b: BrandVersion| b@) =~= seq![b@]);
                },
                None => {
                    assert(out@.map_values(|b: BrandVersion| b@) =~= Seq::<BrandVersionView>::empty());
                },
            }
            out
        },
    }
}

fn brand_entry(name: &str, version: &str) -> (r: BrandVersion)
    ensures
        r@ == (BrandVersionView { brand: name@, version: version@ }),
{
    BrandVersion { brand: String::from_str(name), version: String::from_str(version) }
}

/// Parses a brand list such as `"Chromium";v="136", "Not.A/Brand";v="99"`:
/// each comma-separated entry with a quoted brand and a `v="..."` version
/// becomes a brand entry; when none does, Chrome 136's list is used.
pub fn parse_brands(input: &str) -> (r: Vec<BrandVersion>)
    ensures
        r@.map_values(|b: BrandVersion| b@) == parsed_brands(input@),
{
    let v = crate::text::chars_of(input);
    let found = brands_from(input, &v, 0);
    assert(v@.subrange(0, v@.len() as int) =~= input@);
    if found.len() == 0 {
        let mut defaults: Vec<BrandVersion> = Vec::new();
        defaults.push(brand_entry("Chromium", "136"));
        defaults.push(brand_entry("Google Chrome", "136"));
        defaults.push(brand_entry("Not.A/Brand", "99"));
        assert(defaults@.map_values(|b: BrandVersion| b@) =~= default_brands());
        defaults
    } else {
        found
    }
}

proof fn lemma_collected_brands_joined(x: Seq<Seq<char>>, y: Seq<Seq<char>>)
    ensures
        collected_brands(x + y) == collected_brands(x) + collected_brands(y),
    decreases x.len(),
{
    if x.len() == 0 {
        assert(x + y =~= y);
        assert(collected_brands(x) + collected_brands(y) =~= collected_brands(y));
    } else {
        assert((x + y)[0] == x[0]);
        assert((x + y).drop_first() =~= x.drop_first() + y);
        lemma_collected_brands_joined(x.drop_first(), y);
        match entry_brand(x[0]) {
            Some(b) => {
                assert(collected_brands(x + y) =~= seq![b] + collected_brands(x.drop_first())
                    + collected_brands(y));
            },
            None => {},
        }
    }
}

/// Law: parsing two brand lists joined by a comma gives the brands of the first
/// followed by those of the second, when each of them names a brand on its own.
pub proof fn law_joined_brand_lists_parse_to_joined_brands(a: Seq<char>, b: Seq<char>)
    requires
        collected_brands(split_on(a, ',')).len() > 0,
        collected_brands(split_on(b, ',')).len() > 0,
    ensures
        parsed_brands(a + seq![','] + b) == parsed_brands(a) + parsed_brands(b),
{
    lemma_split_on_joined(a, ',', b);
    lemma_collected_brands_joined(split_on(a, ','), split_on(b, ','));
}

/// Law: the brand list is never empty.
pub proof fn law_brand_list_is_never_empty(input: Seq<char>)
    ensures
        parsed_brands(input).len() > 0,
{
}

/// The brand `Not.A/Brand`, whose version the full version list keeps.
pub open spec fn grease_brand() -> Seq<char> {
    "Not.A/Brand"@
}

/// The full version list: the brand list with every version replaced by the
/// full browser version, except that of `Not.A/Brand`.
pub open spec fn full_version_list(brands: Seq<BrandVersionView>, full_version: Seq<char>) -> Seq<BrandVersionView> {
    brands.map_values(|b: BrandVersionView| BrandVersionView {
        brand: b.brand,
        version: if b.brand == grease_brand() { b.version } else { full_version },
    })
}

/// Law: the full version list names the brands of the brand list, in the same
/// order; each of its versions is the full browser version, except that of
/// `Not.A/Brand`, which keeps the version of the brand list.
pub proof fn law_full_version_list_follows_the_brand_list(brands_pref: Seq<char>, full_version: Seq<char>, i: int)
    requires
        0 <= i < parsed_brands(brands_pref).len(),
    ensures
        full_version_list(parsed_brands(brands_pref), full_version).len() == parsed_brands(brands_pref).len(),
        full_version_list(parsed_brands(brands_pref), full_version)[i].brand == parsed_brands(brands_pref)[i].brand,
        full_version_list(parsed_brands(brands_pref), full_version)[i].version == (if parsed_brands(
            brands_pref,
        )[i].brand == grease_brand() {
            parsed_brands(brands_pref)[i].version
        } else {
            full_version
        }),
{
}

/// The persona preferences behind `navigator.userAgentData`.
pub struct UaDataPreferences {
    pub brands: String,
    pub mobile: bool,
    pub platform: String,
    pub platform_version: String,
    pub architecture: String,
    pub bitness: String,
    pub model: String,
    pub full_version: String,
}

/// The high-entropy values a page can ask for (`UADataValues`).
pub struct UaDataValues {
    pub brands: Vec<BrandVersion>,
    pub full_version_list: Vec<BrandVersion>,
    pub mobile: bool,
    pub platform: String,
    pub platform_version: String,
    pub architecture: String,
    pub bitness: String,
    pub model: String,
    pub ua_full_version: String,
    pub full_version: String,
}

/// The brand list of the persona.
pub fn ua_brands(brands_pref: &str) -> (r: Vec<BrandVersion>)
    ensures
        r@.map_values(|b: BrandVersion| b@) == parsed_brands(brands_pref@),
{
    parse_brands(brands_pref)
}

/// The full version list of the persona.
pub fn ua_full_version_list(brands_pref: &str, full_version: &str) -> (r: Vec<BrandVersion>)
    ensures
        r@.map_values(|b: BrandVersion| b@) == full_version_list(parsed_brands(brands_pref@), full_version@),
{
    let brands = ua_brands(brands_pref);
    let ghost views = brands@.map_values(|b: BrandVersion| b@);
    let mut out: Vec<BrandVersion> = Vec::new();
    let mut i: usize = 0;
    while i < brands.len()
        invariant
            i <= brands@.len(),
            views == brands@.map_values(|b: BrandVersion| b@),
            out@.map_values(|b: BrandVersion| b@) == full_version_list(views.subrange(0, i as int), full_version@),
        decreases brands.len() - i,
    {
        let entry = &brands[i];
        let version = if str_eq(entry.brand.as_str(), "Not.A/Brand") {
            entry.version.clone()
        } else {
            String::from_str(full_version)
        };
        let item = BrandVersion { brand: entry.brand.clone(), version };
        let ghost prev = out@;
        out.push(item);
        proof {
            assert(views[i as int] == brands@[i as int]@);
            assert(out@.map_values(|b: BrandVersion| b@) =~= prev.map_values(|b: BrandVersion| b@).push(item@));
            assert(full_version_list(views.subrange(0, i + 1), full_version@) =~= full_version_list(
                views.subrange(0, i as int),
                full_version@,
            ).push(item@));
        }
        i = i + 1;
    }
    assert(views.subrange(0, i as int) =~= views);
    out
}

/// The `NavigatorUAData` interface object.
pub struct NavigatorUAData {}

impl NavigatorUAData {
    /// The object.
    pub fn new_inherited() -> NavigatorUAData {
        NavigatorUAData {}
    }

    /// The object.
    pub fn new() -> NavigatorUAData {
        NavigatorUAData::new_inherited()
    }

    /// The brand list.
    #[allow(non_snake_case)]
    pub fn Brands(&self, prefs: &UaDataPreferences) -> (r: Vec<BrandVersion>)
        ensures
            r@.map_values(|b: BrandVersion| b@) == parsed_brands(prefs.brands@),
    {
        ua_brands(prefs.brands.as_str())
    }

    /// Whether the persona is a mobile device.
    #[allow(non_snake_case)]
    pub fn Mobile(&self, prefs: &UaDataPreferences) -> (r: bool)
        ensures
            r == prefs.mobile,
    {
        prefs.mobile
    }

    /// The persona platform.
    #[allow(non_snake_case)]
    pub fn Platform(&self, prefs: &UaDataPreferences) -> (r: String)
        ensures
            r@ == prefs.platform@,
    {
        prefs.platform.clone()
    }

    /// The high-entropy values; every value is given, whatever was asked for.
    #[allow(non_snake_case)]
    pub fn GetHighEntropyValues(&self, prefs: &UaDataPreferences) -> (r: UaDataValues)
        ensures
            r.brands@.map_values(|b: BrandVersion| b@) == parsed_brands(prefs.brands@),
            r.full_version_list@.map_values(|b: BrandVersion| b@) == full_version_list(
                parsed_brands(prefs.brands@),
                prefs.full_version@,
            ),
            r.mobile == prefs.mobile,
            r.platform@ == prefs.platform@,
            r.platform_version@ == prefs.platform_version@,
            r.architecture@ == prefs.architecture@,
            r.bitness@ == prefs.bitness@,
            r.model@ == prefs.model@,
            r.ua_full_version@ == prefs.full_version@,
            r.full_version@ == prefs.full_version@,
    {
        UaDataValues {
            brands: ua_brands(prefs.brands.as_str()),
            full_version_list: ua_full_version_list(prefs.brands.as_str(), prefs.full_version.as_str()),
            mobile: self.Mobile(prefs),
            platform: self.Platform(prefs),
            platform_version: prefs.platform_version.clone(),
            architecture: prefs.architecture.clone(),
            bitness: prefs.bitness.clone(),
            model: prefs.model.clone(),
            ua_full_version: prefs.full_version.clone(),
            full_version: prefs.full_version.clone(),
        }
    }
}

} // verus!
