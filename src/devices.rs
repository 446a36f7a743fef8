//! Input-device listing: which device names are offered to the user, under
//! which label, and in which order.
use vstd::prelude::*;
use vstd::string::*;
use crate::text::{
    has_prefix, lemma_lex_total, lemma_lex_trans, lex_le, lower_of, lowercase, starts_with, text_le,
    trim_of, trim_str,
};

verus! {

/// An input device as offered to the user.
#[derive(Debug)]
pub struct AudioDevice {
    /// What is passed back to select the device.
    pub id: String,
    /// Human-readable label.
    pub name: String,
    pub is_default: bool,
}

pub type DeviceView = (Seq<char>, Seq<char>, bool);

impl AudioDevice {
    pub open spec fn view(&self) -> DeviceView {
        (self.id@, self.name@, self.is_default)
    }

    /// A copy of the device, field by field.
    pub fn duplicate(&self) -> (r: AudioDevice)
        ensures
            r@ == self@,
    {
        AudioDevice { id: self.id.clone(), name: self.name.clone(), is_default: self.is_default }
    }
}

/// Whether `name` equals `"default"` ignoring ASCII case.
pub open spec fn is_default_alias_spec(name: Seq<char>) -> bool {
    &&& name.len() == "default"@.len()
    &&& forall|i: int|
        0 <= i < name.len() ==> name[i] == "default"@[i] || name[i] == "DEFAULT"@[i]
}

pub fn is_default_alias(name: &str) -> (r: bool)
    ensures
        r == is_default_alias_spec(name@),
{
    let lower = "default";
    let upper = "DEFAULT";
    proof {
        reveal_strlit("default");
        reveal_strlit("DEFAULT");
    }
    let n = name.unicode_len();
    if n != lower.unicode_len() {
        return false;
    }
    let mut i: usize = 0;
    while i < n
        invariant
            n == name@.len(),
            n == lower@.len(),
            n == upper@.len(),
            lower@ == "default"@,
            upper@ == "DEFAULT"@,
            0 <= i <= n,
            forall|j: int| 0 <= j < i ==> name@[j] == lower@[j] || name@[j] == upper@[j],
        decreases n - i,
    {
        let c = name.get_char(i);
        if c != lower.get_char(i) && c != upper.get_char(i) {
            return false;
        }
        i = i + 1;
    }
    true
}

/// Names of virtual or routing devices that are never offered, by prefix of
/// the lowercased name.
pub open spec fn blocked_name(lower: Seq<char>) -> bool {
    starts_with(lower, "pipewire"@) || starts_with(lower, "pulse"@) || starts_with(
        lower,
        "sysdefault"@,
    ) || starts_with(lower, "front"@) || starts_with(lower, "surround"@) || starts_with(
        lower,
        "iec958"@,
    ) || starts_with(lower, "spdif"@) || starts_with(lower, "hdmi"@) || starts_with(
        lower,
        "dmix"@,
    ) || starts_with(lower, "dsnoop"@) || starts_with(lower, "null"@)
}

/// Whether a device name is offered: none of the blocked prefixes starts its
/// lowercased form.
pub fn should_include_device_name(name: &str) -> (r: bool)
    ensures
        r == !blocked_name(lower_of(name@)),
{
    let lowered = lowercase(name);
    let lower = lowered.as_str();
    !(has_prefix(lower, "pipewire") || has_prefix(lower, "pulse") || has_prefix(
        lower,
        "sysdefault",
    ) || has_prefix(lower, "front") || has_prefix(lower, "surround") || has_prefix(
        lower,
        "iec958",
    ) || has_prefix(lower, "spdif") || has_prefix(lower, "hdmi") || has_prefix(lower, "dmix")
        || has_prefix(lower, "dsnoop") || has_prefix(lower, "null"))
}

/// The label of a device: its friendly name when there is one, else its raw
/// name, marked when it is the system default.
pub open spec fn label_spec(name: Seq<char>, friendly: Option<Seq<char>>, is_default: bool) -> Seq<
    char,
> {
    let base = match friendly {
        Some(f) => f,
        None => name,
    };
    if is_default {
        base + " (System Default)"@
    } else {
        base
    }
}

pub open spec fn opt_view(o: Option<String>) -> Option<Seq<char>> {
    match o {
        Some(s) => Some(s@),
        None => None,
    }
}

pub fn format_device_label(name: &str, is_default: bool, friendly: Option<String>) -> (r: String)
    ensures
        r@ == label_spec(name@, opt_view(friendly), is_default),
{
    let base = match friendly {
        Some(f) => f,
        None => String::from_str(name),
    };
    if is_default {
        base.concat(" (System Default)")
    } else {
        base
    }
}

/// The label of an ALSA card device: the card's long name (or its id when
/// the card cannot be asked), with the device number unless it is device 0.
pub open spec fn alsa_label_spec(
    card_id: Seq<char>,
    dev: Option<Seq<char>>,
    longname: Option<Seq<char>>,
) -> Seq<char> {
    let base = match longname {
        Some(l) => l,
        None => card_id,
    };
    match dev {
        Some(d) => if d == "0"@ {
            base
        } else {
            base + " (Device "@ + d + ")"@
        },
        None => base,
    }
}

pub fn alsa_friendly_name(card_id: String, dev: Option<String>, longname: Option<String>) -> (r:
    String)
    ensures
        r@ == alsa_label_spec(card_id@, opt_view(dev), opt_view(longname)),
{
    let base = match longname {
        Some(l) => l,
        None => card_id,
    };
    match dev {
        Some(d) => {
            let zero = String::from_str("0");
            if d == zero {
                base
            } else {
                base.concat(" (Device ").concat(d.as_str()).concat(")")
            }
        },
        None => base,
    }
}

/// Whether `p` occurs in `s` at position `i`.
pub open spec fn occurs_at(s: Seq<char>, p: Seq<char>, i: int) -> bool {
    0 <= i && i + p.len() <= s.len() && s.subrange(i, i + p.len()) == p
}

/// Whether `p` occurs in `s` at position `i`.
pub fn occurs_at_exec(s: &str, p: &str, i: usize) -> (r: bool)
    ensures
        r == occurs_at(s@, p@, i as int),
{
    let n = s.unicode_len();
    let m = p.unicode_len();
    if m > n || i > n - m {
        return false;
    }
    let mut k: usize = 0;
    while k < m
        invariant
            n == s@.len(),
            m == p@.len(),
            i + m <= n,
            0 <= k <= m,
            forall|j: int| 0 <= j < k ==> s@[i + j] == p@[j],
        decreases m - k,
    {
        if s.get_char(i + k) != p.get_char(k) {
            assert(s@.subrange(i as int, i + m)[k as int] != p@[k as int]);
            return false;
        }
        k = k + 1;
    }
    assert(s@.subrange(i as int, i + m) =~= p@);
    true
}

/// A card's long name as shown: the part before the first `" at "` (which
/// starts the bus address), or all of it, trimmed.
pub fn card_display_name(longname: &str) -> (r: String)
    ensures
        (exists|k: int|
            {
                &&& occurs_at(longname@, " at "@, k)
                &&& forall|j: int| 0 <= j < k ==> !occurs_at(longname@, " at "@, j)
                &&& r@ == trim_of(longname@.subrange(0, k))
            }) || ((forall|j: int| !occurs_at(longname@, " at "@, j)) && r@ == trim_of(longname@)),
{
    let n = longname.unicode_len();
    let mut i: usize = 0;
    while i < n
        invariant
            n == longname@.len(),
            0 <= i <= n,
            forall|j: int| 0 <= j < i ==> !occurs_at(longname@, " at "@, j),
        decreases n - i,
    {
        if occurs_at_exec(longname, " at ", i) {
            let head = longname.substring_char(0, i);
            return String::from_str(trim_str(head));
        }
        i = i + 1;
    }
    assert forall|j: int| !occurs_at(longname@, " at "@, j) by {
        reveal_strlit(" at ");
    }
    String::from_str(trim_str(longname))
}

/// The pieces of `s` between commas, as `str::split(',')` yields them: at
/// least one, possibly empty.
pub open spec fn comma_parts(s: Seq<char>) -> Seq<Seq<char>>
    decreases s.len(),
{
    if s.len() == 0 {
        seq![Seq::empty()]
    } else {
        let prev = comma_parts(s.drop_last());
        if s.last() == ',' {
            prev.push(Seq::empty())
        } else {
            prev.update(prev.len() - 1, prev.last().push(s.last()))
        }
    }
}

/// Card and device as read so far.
pub type CardDev = (Option<Seq<char>>, Option<Seq<char>>);

/// Reads one piece of an ALSA device name: `CARD=` and `DEV=` name their
/// field; a bare piece fills the card, then the device, when still unset.
pub open spec fn apply_part(acc: CardDev, part: Seq<char>) -> CardDev {
    if starts_with(part, "CARD="@) {
        (Some(part.skip("CARD="@.len() as int)), acc.1)
    } else if starts_with(part, "DEV="@) {
        (acc.0, Some(part.skip("DEV="@.len() as int)))
    } else if acc.0 is None {
        (Some(part), acc.1)
    } else if acc.1 is None {
        (acc.0, Some(part))
    } else {
        acc
    }
}

pub open spec fn fold_parts(parts: Seq<Seq<char>>) -> CardDev
    decreases parts.len(),
{
    if parts.len() == 0 {
        (None, None)
    } else {
        apply_part(fold_parts(parts.drop_last()), parts.last())
    }
}

/// What follows the `plughw:` or `hw:` prefix of an ALSA hardware name.
pub open spec fn alsa_rest(name: Seq<char>) -> Option<Seq<char>> {
    if starts_with(name, "plughw:"@) {
        Some(name.skip("plughw:"@.len() as int))
    } else if starts_with(name, "hw:"@) {
        Some(name.skip("hw:"@.len() as int))
    } else {
        None
    }
}

/// Card id and optional device of an ALSA hardware device name such as
/// `hw:CARD=PCH,DEV=0` or `plughw:1,0`; `None` for other names or when no
/// card is named.
pub open spec fn parse_alsa_spec(name: Seq<char>) -> Option<(Seq<char>, Option<Seq<char>>)> {
    match alsa_rest(name) {
        None => None,
        Some(rest) => {
            let acc = fold_parts(comma_parts(rest));
            match acc.0 {
                Some(card) => Some((card, acc.1)),
                None => None,
            }
        },
    }
}

pub open spec fn card_dev_view(acc: (Option<String>, Option<String>)) -> CardDev {
    (opt_view(acc.0), opt_view(acc.1))
}

fn apply_alsa_part(acc: (Option<String>, Option<String>), part: &str) -> (r: (
    Option<String>,
    Option<String>,
))
    ensures
        card_dev_view(r) == apply_part(card_dev_view(acc), part@),
{
    let n = part.unicode_len();
    let (card, dev) = acc;
    if has_prefix(part, "CARD=") {
        let k = "CARD=".unicode_len();
        return (Some(String::from_str(part.substring_char(k, n))), dev);
    }
    if has_prefix(part, "DEV=") {
        let k = "DEV=".unicode_len();
        return (card, Some(String::from_str(part.substring_char(k, n))));
    }
    if card.is_none() {
        return (Some(String::from_str(part)), dev);
    }
    if dev.is_none() {
        return (card, Some(String::from_str(part)));
    }
    (card, dev)
}

fn strip_alsa_prefix(name: &str) -> (r: Option<&str>)
    ensures
        match r {
            Some(rest) => alsa_rest(name@) == Some(rest@),
            None => alsa_rest(name@) is None,
        },
{
    let n = name.unicode_len();
    if has_prefix(name, "plughw:") {
        let k = "plughw:".unicode_len();
        return Some(name.substring_char(k, n));
    }
    if has_prefix(name, "hw:") {
        let k = "hw:".unicode_len();
        return Some(name.substring_char(k, n));
    }
    None
}

/// Splits an ALSA hardware device name into card id and device.
pub fn parse_alsa_device_name(name: &str) -> (r: Option<(String, Option<String>)>)
    ensures
        match r {
            Some((card, dev)) => parse_alsa_spec(name@) == Some((card@, opt_view(dev))),
            None => parse_alsa_spec(name@) is None,
        },
{
    let rest = match strip_alsa_prefix(name) {
        Some(rest) => rest,
        None => return None,
    };
    let n = rest.unicode_len();
    let mut acc: (Option<String>, Option<String>) = (None, None);
    let mut start: usize = 0;
    let mut i: usize = 0;
    let ghost mut done: Seq<Seq<char>> = Seq::empty();
    assert(rest@.take(0) =~= Seq::<char>::empty());
    assert(rest@.subrange(0, 0) =~= Seq::<char>::empty());
    while i < n
        invariant
            n == rest@.len(),
            0 <= start <= i <= n,
            comma_parts(rest@.take(i as int)) == done.push(rest@.subrange(start as int, i as int)),
            card_dev_view(acc) == fold_parts(done),
        decreases n - i,
    {
        let c = rest.get_char(i);
        let ghost prev = rest@.take(i as int);
        assert(rest@.take(i + 1).drop_last() =~= prev);
        assert(rest@.take(i + 1).last() == c);
        if c == ',' {
            let part = rest.substring_char(start, i);
            acc = apply_alsa_part(acc, part);
            proof {
                let cur = rest@.subrange(start as int, i as int);
                assert(done.push(cur).drop_last() =~= done);
                done = done.push(cur);
                assert(rest@.subrange(i + 1, i + 1) =~= Seq::<char>::empty());
            }
            start = i + 1;
        } else {
            proof {
                let cur = rest@.subrange(start as int, i as int);
                assert(rest@.subrange(start as int, i + 1) =~= cur.push(c));
                assert(done.push(cur).update(done.len() as int, cur.push(c)) =~= done.push(
                    cur.push(c),
                ));
            }
        }
        i = i + 1;
    }
    let last = rest.substring_char(start, n);
    acc = apply_alsa_part(acc, last);
    proof {
        let cur = rest@.subrange(start as int, n as int);
        assert(rest@.take(n as int) =~= rest@);
        assert(done.push(cur).drop_last() =~= done);
    }
    let (card, dev) = acc;
    match card {
        Some(card_id) => Some((card_id, dev)),
        None => None,
    }
}

/// One input device as the host reports it, with the friendly name worked
/// out for it (an ALSA card label) where there is one.
pub struct RawDevice {
    pub name: String,
    pub friendly: Option<String>,
}

pub open spec fn raw_names(raw: Seq<RawDevice>) -> Seq<Seq<char>> {
    raw.map_values(|d: RawDevice| d.name@)
}

/// A `hw:` name whose `plughw:` counterpart is also listed; only the latter
/// is offered.
pub open spec fn plughw_twin(names: Seq<Seq<char>>, name: Seq<char>) -> bool {
    &&& starts_with(name, "hw:"@)
    &&& exists|j: int|
        0 <= j < names.len() && names[j] == "plughw:"@ + name.skip("hw:"@.len() as int)
}

/// Whether device `i` is offered: not the `default` alias, not a blocked
/// name, not shadowed by its `plughw:` twin, and the first of its name.
pub open spec fn listed(raw: Seq<RawDevice>, i: int) -> bool {
    let name = raw[i].name@;
    &&& !is_default_alias_spec(name)
    &&& !blocked_name(lower_of(name))
    &&& !plughw_twin(raw_names(raw), name)
    &&& forall|j: int| 0 <= j < i ==> raw[j].name@ != name
}

/// The entry offered for a device.
pub open spec fn entry_spec(d: RawDevice, default_name: Option<Seq<char>>) -> DeviceView {
    let is_default = default_name == Some(d.name@);
    (d.name@, label_spec(d.name@, opt_view(d.friendly), is_default), is_default)
}

/// Entries offered for the first `n` devices, in enumeration order.
pub open spec fn discovered(raw: Seq<RawDevice>, n: int, default_name: Option<Seq<char>>) -> Seq<
    DeviceView,
>
    decreases n,
{
    if n <= 0 {
        Seq::empty()
    } else {
        let prev = discovered(raw, n - 1, default_name);
        if listed(raw, n - 1) {
            prev.push(entry_spec(raw[n - 1], default_name))
        } else {
            prev
        }
    }
}

pub open spec fn devices_view(v: Seq<AudioDevice>) -> Seq<DeviceView> {
    v.map_values(|d: AudioDevice| d@)
}

pub open spec fn sorted_by_label(v: Seq<DeviceView>) -> bool {
    forall|i: int, j: int| 0 <= i < j < v.len() ==> lex_le(v[i].1, v[j].1)
}

fn has_plughw_twin(raw: &Vec<RawDevice>, name: &str) -> (r: bool)
    ensures
        r == plughw_twin(raw_names(raw@), name@),
{
    if !has_prefix(name, "hw:") {
        return false;
    }
    let n = name.unicode_len();
    let k = "hw:".unicode_len();
    let key = String::from_str("plughw:").concat(name.substring_char(k, n));
    let mut j: usize = 0;
    while j < raw.len()
        invariant
            0 <= j <= raw@.len(),
            key@ == "plughw:"@ + name@.skip("hw:"@.len() as int),
            starts_with(name@, "hw:"@),
            forall|t: int| 0 <= t < j ==> raw_names(raw@)[t] != key@,
        decreases raw@.len() - j,
    {
        if raw[j].name == key {
            assert(raw_names(raw@).len() == raw@.len());
            assert(raw_names(raw@)[j as int] == key@);
            return true;
        }
        j = j + 1;
    }
    false
}

fn seen_before(raw: &Vec<RawDevice>, i: usize) -> (r: bool)
    requires
        i < raw@.len(),
    ensures
        r == exists|j: int| 0 <= j < i && raw@[j].name@ == raw@[i as int].name@,
{
    let mut j: usize = 0;
    while j < i
        invariant
            i < raw@.len(),
            0 <= j <= i,
            forall|t: int| 0 <= t < j ==> raw@[t].name@ != raw@[i as int].name@,
        decreases i - j,
    {
        if raw[j].name == raw[i].name {
            return true;
        }
        j = j + 1;
    }
    false
}

/// The entries offered, in enumeration order.
pub fn discover_devices(raw: &Vec<RawDevice>, default_name: &Option<String>) -> (r: Vec<
    AudioDevice,
>)
    ensures
        devices_view(r@) == discovered(raw@, raw@.len() as int, opt_view(*default_name)),
{
    let mut out: Vec<AudioDevice> = Vec::new();
    let mut i: usize = 0;
    while i < raw.len()
        invariant
            0 <= i <= raw@.len(),
            devices_view(out@) == discovered(raw@, i as int, opt_view(*default_name)),
        decreases raw@.len() - i,
    {
        let name = raw[i].name.as_str();
        let keep = !is_default_alias(name) && should_include_device_name(name) && !has_plughw_twin(
            raw,
            name,
        ) && !seen_before(raw, i);
        if keep {
            let is_default = match default_name {
                Some(d) => *d == raw[i].name,
                None => false,
            };
            let friendly = match &raw[i].friendly {
                Some(f) => Some(f.clone()),
                None => None,
            };
            let label = format_device_label(name, is_default, friendly);
            let entry = AudioDevice { id: raw[i].name.clone(), name: label, is_default };
            let ghost before = out@;
            out.push(entry);
            assert(devices_view(out@) =~= devices_view(before).push(entry@));
        }
        i = i + 1;
    }
    out
}

/// The devices ordered by label, smallest first.
pub fn sort_by_label(v: &Vec<AudioDevice>) -> (r: Vec<AudioDevice>)
    ensures
        sorted_by_label(devices_view(r@)),
        devices_view(r@).to_multiset() == devices_view(v@).to_multiset(),
{
    broadcast use vstd::seq_lib::to_multiset_insert, vstd::seq_lib::to_multiset_build;

    let mut out: Vec<AudioDevice> = Vec::new();
    let mut i: usize = 0;
    assert(devices_view(v@).take(0) =~= Seq::<DeviceView>::empty());
    assert(devices_view(out@) =~= Seq::<DeviceView>::empty());
    while i < v.len()
        invariant
            0 <= i <= v@.len(),
            sorted_by_label(devices_view(out@)),
            devices_view(out@).to_multiset() == devices_view(v@).take(i as int).to_multiset(),
        decreases v@.len() - i,
    {
        let e = v[i].duplicate();
        let mut p: usize = 0;
        while p < out.len() && text_le(out[p].name.as_str(), e.name.as_str())
            invariant
                0 <= p <= out@.len(),
                forall|k: int| 0 <= k < p ==> lex_le(out@[k].name@, e.name@),
            decreases out@.len() - p,
        {
            p = p + 1;
        }
        let ghost old_view = devices_view(out@);
        proof {
            if p < out@.len() {
                lemma_lex_total(out@[p as int].name@, e.name@);
                assert forall|k: int| p <= k < old_view.len() implies lex_le(e.name@, old_view[k].1) by {
                    if k > p {
                        lemma_lex_trans(e.name@, old_view[p as int].1, old_view[k].1);
                    }
                }
            }
        }
        out.insert(p, e);
        proof {
            let nv = devices_view(out@);
            assert(nv =~= old_view.insert(p as int, e@));
            assert(devices_view(v@).take(i + 1) =~= devices_view(v@).take(i as int).push(
                v@[i as int]@,
            ));
            vstd::seq_lib::to_multiset_insert(old_view, p as int, e@);
            vstd::seq_lib::to_multiset_build(devices_view(v@).take(i as int), v@[i as int]@);
            assert forall|a: int, b: int| 0 <= a < b < nv.len() implies lex_le(nv[a].1, nv[b].1) by {
                if a < p && b == p {
                } else if a < p && b > p {
                    lemma_lex_trans(nv[a].1, e.name@, nv[b].1);
                }
            }
        }
        i = i + 1;
    }
    assert(devices_view(v@).take(v@.len() as int) =~= devices_view(v@));
    out
}

/// The devices to offer: a "Default" entry first, then every listed device,
/// ordered by label.
pub fn device_list(raw: &Vec<RawDevice>, default_name: &Option<String>) -> (r: Vec<AudioDevice>)
    ensures
        r@.len() >= 1,
        r@[0]@ == ("default"@, "Default"@, true),
        sorted_by_label(devices_view(r@).skip(1)),
        devices_view(r@).skip(1).to_multiset() == discovered(
            raw@,
            raw@.len() as int,
            opt_view(*default_name),
        ).to_multiset(),
{
    let discovered = discover_devices(raw, default_name);
    let sorted = sort_by_label(&discovered);
    let mut out: Vec<AudioDevice> = Vec::new();
    out.push(
        AudioDevice {
            id: String::from_str("default"),
            name: String::from_str("Default"),
            is_default: true,
        },
    );
    let mut i: usize = 0;
    while i < sorted.len()
        invariant
            0 <= i <= sorted@.len(),
            out@.len() == i + 1,
            out@[0]@ == ("default"@, "Default"@, true),
            devices_view(out@).skip(1) == devices_view(sorted@).take(i as int),
        decreases sorted@.len() - i,
    {
        let ghost before = out@;
        out.push(sorted[i].duplicate());
        assert(devices_view(out@).skip(1) =~= devices_view(sorted@).take(i + 1));
        i = i + 1;
    }
    assert(devices_view(sorted@).take(sorted@.len() as int) =~= devices_view(sorted@));
    out
}

} // verus!
