//! Status text of each known module, computed from what its probe read.
use vstd::prelude::*;
use vstd::string::StringExecFns;
use crate::status::{pinned_class, ModuleStatus};
use crate::text::{
    contains, has_infix, has_prefix, lines, parse_number, parsed_number, split_lines, split_words,
    starts_with, str_eq, strings_view, to_decimal, decimal, trim, trimmed, words, join_from, joined,
};

verus! {

/// What a module's probe reads: command output, file contents or counts,
/// as they came. `None` stands for a read that failed.
pub enum Reading {
    /// Output of the sink-mute query, and of the volume script.
    Audio { mute: Option<String>, volume: Option<String> },
    /// Output of the controller query, and of the connected-devices list.
    Bluetooth { show: Option<String>, connected: Option<String> },
    /// Output of the wireless station query, and of the up-links list.
    Network { wifi: Option<String>, links: Option<String> },
    /// Contents of the kernel CPU statistics file (empty when unreadable).
    Cpu { stat: String },
    /// The first battery's capacity and status files; `None` if there is
    /// no battery.
    Battery { battery: Option<(Option<String>, Option<String>)> },
    /// Number of unread messages in the mailboxes' inboxes.
    Mail { unread: u64 },
    /// Output of the date command.
    Calendar { date: Option<String> },
    /// Output of the tunnel link query.
    Vpn { link: Option<String> },
    /// Nothing was read.
    Nothing,
}

/// The probe that a module's status needs.
#[derive(PartialEq, Eq, Structural, Debug, Clone, Copy)]
pub enum Probe {
    Audio,
    Bluetooth,
    Network,
    Cpu,
    Battery,
    Mail,
    Calendar,
    Vpn,
    /// A module whose status needs no reading.
    Nothing,
}

/// The probe that module `module` needs.
pub open spec fn probe_of(module: Seq<char>) -> Probe {
    if module == "audio"@ {
        Probe::Audio
    } else if module == "bluetooth"@ {
        Probe::Bluetooth
    } else if module == "network"@ {
        Probe::Network
    } else if module == "cpu"@ {
        Probe::Cpu
    } else if module == "battery"@ {
        Probe::Battery
    } else if module == "mail"@ {
        Probe::Mail
    } else if module == "calendar"@ {
        Probe::Calendar
    } else if module == "vpn"@ {
        Probe::Vpn
    } else {
        Probe::Nothing
    }
}

/// The probe that module `module` needs.
pub fn probe_for(module: &str) -> (r: Probe)
    ensures
        r == probe_of(module@),
{
    if str_eq(module, "audio") {
        Probe::Audio
    } else if str_eq(module, "bluetooth") {
        Probe::Bluetooth
    } else if str_eq(module, "network") {
        Probe::Network
    } else if str_eq(module, "cpu") {
        Probe::Cpu
    } else if str_eq(module, "battery") {
        Probe::Battery
    } else if str_eq(module, "mail") {
        Probe::Mail
    } else if str_eq(module, "calendar") {
        Probe::Calendar
    } else if str_eq(module, "vpn") {
        Probe::Vpn
    } else {
        Probe::Nothing
    }
}

/// Whether an optional output holds `p`.
pub open spec fn output_has(o: Option<Seq<char>>, p: Seq<char>) -> bool {
    o is Some && has_infix(o->Some_0, p)
}

fn output_contains(o: &Option<String>, p: &str) -> (r: bool)
    ensures
        r == output_has(o.deep_view(), p@),
{
    match o {
        Some(s) => contains(s.as_str(), p),
        None => false,
    }
}

/// The number a trimmed output spells, or 0.
pub open spec fn number_or_zero(s: Seq<char>, max: nat) -> nat {
    match parsed_number(trimmed(s), max) {
        Some(v) => v,
        None => 0,
    }
}

/// The volume icon for a level in percent.
pub open spec fn volume_icon(v: nat) -> Seq<char> {
    if v == 0 {
        "\u{f026}"@
    } else if v < 50 {
        "\u{f027}"@
    } else {
        "\u{f028}"@
    }
}

/// Audio: a muted icon, or the volume icon and level.
pub open spec fn audio_text(mute: Option<Seq<char>>, volume: Option<Seq<char>>) -> Seq<char> {
    if output_has(mute, "yes"@) {
        "\u{f6a9}"@
    } else {
        let v = match volume {
            Some(o) => number_or_zero(o, u32::MAX as nat),
            None => 0,
        };
        volume_icon(v) + " "@ + decimal(v) + "%"@
    }
}

/// Status of the audio module.
pub fn get_audio_status(mute: &Option<String>, volume: &Option<String>) -> (r: ModuleStatus)
    ensures
        r.text@ == audio_text(mute.deep_view(), volume.deep_view()),
        r.class@.len() == 0,
        r.tooltip@.len() == 0,
{
    if output_contains(mute, "yes") {
        return ModuleStatus::new("\u{f6a9}");
    }
    let v: u64 = match volume {
        Some(o) => {
            let t = trim(o.as_str());
            match parse_number(t.as_str(), 0xffff_ffff) {
                Some(v) => v,
                None => 0,
            }
        },
        None => 0,
    };
    let icon = if v == 0 {
        "\u{f026}"
    } else if v < 50 {
        "\u{f027}"
    } else {
        "\u{f028}"
    };
    let text = String::from_str(icon).concat(" ").concat(to_decimal(v).as_str()).concat("%");
    ModuleStatus::new(text.as_str())
}

/// The words of `w` after the first `k`.
pub open spec fn words_after(w: Seq<Seq<char>>, k: int) -> Seq<Seq<char>> {
    if w.len() >= k {
        w.skip(k)
    } else {
        Seq::empty()
    }
}

/// The device name on the first line of a device list ("Device <address>
/// <name>"): its words after the second, joined by single spaces.
pub open spec fn device_name(o: Seq<char>) -> Seq<char> {
    let ls = lines(o);
    if ls.len() > 0 {
        joined(words_after(words(ls[0]), 2), " "@)
    } else {
        Seq::empty()
    }
}

/// Bluetooth: off, the first connected device's name, or on.
pub open spec fn bluetooth_text(show: Option<Seq<char>>, connected: Option<Seq<char>>) -> Seq<char> {
    if !output_has(show, "Powered: yes"@) {
        "\u{f293}"@ + " off"@
    } else if connected is Some && device_name(connected->Some_0).len() > 0 {
        "\u{f293}"@ + " "@ + device_name(connected->Some_0)
    } else {
        "\u{f293}"@ + " on"@
    }
}

fn first_device_name(o: &str) -> (r: String)
    ensures
        r@ == device_name(o@),
{
    let ls = split_lines(o);
    if ls.len() == 0 {
        return String::new();
    }
    let w = split_words(ls[0].as_str());
    if w.len() < 2 {
        return String::new();
    }
    join_from(&w, 2, " ")
}

/// Status of the bluetooth module.
pub fn get_bluetooth_status(show: &Option<String>, connected: &Option<String>) -> (r: ModuleStatus)
    ensures
        r.text@ == bluetooth_text(show.deep_view(), connected.deep_view()),
        r.class@.len() == 0,
        r.tooltip@.len() == 0,
{
    if !output_contains(show, "Powered: yes") {
        return ModuleStatus::new(String::from_str("\u{f293}").concat(" off").as_str());
    }
    if let Some(o) = connected {
        let name = first_device_name(o.as_str());
        if name.as_str().unicode_len() > 0 {
            return ModuleStatus::new(String::from_str("\u{f293}").concat(" ").concat(name.as_str()).as_str());
        }
    }
    ModuleStatus::new(String::from_str("\u{f293}").concat(" on").as_str())
}

/// The last word of `l`, or nothing.
pub open spec fn last_word(l: Seq<char>) -> Seq<char> {
    if words(l).len() > 0 {
        words(l).last()
    } else {
        Seq::empty()
    }
}

/// After reading the station lines `ls`: whether some line reported a
/// connected state, and the network named on the last line that names one.
pub open spec fn station_state(ls: Seq<Seq<char>>) -> (bool, Seq<char>)
    decreases ls.len(),
{
    if ls.len() == 0 {
        (false, Seq::empty())
    } else {
        let prev = station_state(ls.drop_last());
        let l = ls.last();
        (
            prev.0 || (has_infix(l, "State"@) && has_infix(l, "connected"@)),
            if has_infix(l, "Connected network"@) {
                last_word(l)
            } else {
                prev.1
            },
        )
    }
}

/// Whether a link line shows a wired interface (its name, the second word,
/// begins with `en`) in state UP.
pub open spec fn wired_up(l: Seq<char>) -> bool {
    words(l).len() >= 2 && has_prefix(words(l)[1], "en"@) && has_infix(l, "state UP"@)
}

/// Network: the connected wireless network, else a wired icon when a wired
/// link is up, else off.
pub open spec fn network_text(wifi: Option<Seq<char>>, links: Option<Seq<char>>) -> Seq<char> {
    if wifi is Some && station_state(lines(wifi->Some_0)).0 && station_state(lines(wifi->Some_0)).1.len() > 0 {
        "\u{f1eb}"@ + " "@ + station_state(lines(wifi->Some_0)).1
    } else if links is Some && exists|i: int| 0 <= i < lines(links->Some_0).len() && wired_up(#[trigger] lines(links->Some_0)[i]) {
        "\u{f796}"@
    } else {
        "\u{f1eb}"@ + " off"@
    }
}

fn last_word_of(l: &str) -> (r: String)
    ensures
        r@ == last_word(l@),
{
    let w = split_words(l);
    let n = w.len();
    if n > 0 {
        assert(strings_view(w@).last() == w@[n - 1]@);
        String::from_str(w[n - 1].as_str())
    } else {
        String::new()
    }
}

fn connected_network(o: &str) -> (r: Option<String>)
    ensures
        match r {
            Some(ssid) => station_state(lines(o@)).0 && station_state(lines(o@)).1.len() > 0
                && ssid@ == station_state(lines(o@)).1,
            None => !(station_state(lines(o@)).0 && station_state(lines(o@)).1.len() > 0),
        },
{
    let ls = split_lines(o);
    let ghost lv = strings_view(ls@);
    let n = ls.len();
    let mut connected = false;
    let mut ssid = String::new();
    let mut i: usize = 0;
    while i < n
        invariant
            n == ls@.len(),
            lv == strings_view(ls@),
            lv == lines(o@),
            i <= n,
            (connected, ssid@) == station_state(lv.subrange(0, i as int)),
        decreases n - i,
    {
        let l = ls[i].as_str();
        assert(lv.subrange(0, i + 1).drop_last() =~= lv.subrange(0, i as int));
        assert(lv.subrange(0, i + 1).last() == l@);
        if contains(l, "State") && contains(l, "connected") {
            connected = true;
        }
        if contains(l, "Connected network") {
            ssid = last_word_of(l);
        }
        i += 1;
    }
    assert(lv.subrange(0, n as int) =~= lv);
    if connected && ssid.as_str().unicode_len() > 0 {
        Some(ssid)
    } else {
        None
    }
}

fn any_wired_up(o: &str) -> (r: bool)
    ensures
        r == exists|i: int| 0 <= i < lines(o@).len() && wired_up(#[trigger] lines(o@)[i]),
{
    let ls = split_lines(o);
    let ghost lv = strings_view(ls@);
    let n = ls.len();
    let mut i: usize = 0;
    while i < n
        invariant
            n == ls@.len(),
            lv == strings_view(ls@),
            lv == lines(o@),
            i <= n,
            forall|j: int| 0 <= j < i ==> !wired_up(#[trigger] lv[j]),
        decreases n - i,
    {
        let l = ls[i].as_str();
        assert(lv[i as int] == l@);
        let w = split_words(l);
        if w.len() >= 2 {
            assert(strings_view(w@)[1] == w@[1]@);
            if starts_with(w[1].as_str(), "en") && contains(l, "state UP") {
                return true;
            }
        }
        i += 1;
    }
    false
}

/// Status of the network module.
pub fn get_network_status(wifi: &Option<String>, links: &Option<String>) -> (r: ModuleStatus)
    ensures
        r.text@ == network_text(wifi.deep_view(), links.deep_view()),
        r.class@.len() == 0,
        r.tooltip@.len() == 0,
{
    if let Some(o) = wifi {
        if let Some(ssid) = connected_network(o.as_str()) {
            return ModuleStatus::new(String::from_str("\u{f1eb}").concat(" ").concat(ssid.as_str()).as_str());
        }
    }
    if let Some(o) = links {
        if any_wired_up(o.as_str()) {
            assert(links.deep_view()->Some_0 == o@);
            let ghost i = choose|i: int| 0 <= i < lines(o@).len() && wired_up(#[trigger] lines(o@)[i]);
            assert(0 <= i < lines(links.deep_view()->Some_0).len() && wired_up(lines(links.deep_view()->Some_0)[i]));
            return ModuleStatus::new("\u{f796}");
        }
    }
    ModuleStatus::new(String::from_str("\u{f1eb}").concat(" off").as_str())
}

/// The numbers among `ws`, in order; words that are not numbers are skipped.
pub open spec fn numbers(ws: Seq<Seq<char>>) -> Seq<nat>
    decreases ws.len(),
{
    if ws.len() == 0 {
        Seq::empty()
    } else {
        let prev = numbers(ws.drop_last());
        match parsed_number(ws.last(), u64::MAX as nat) {
            Some(v) => prev.push(v),
            None => prev,
        }
    }
}

/// The counters of the first line of the CPU statistics: its numbers after
/// the first word.
pub open spec fn cpu_counters(stat: Seq<char>) -> Seq<nat> {
    if lines(stat).len() > 0 {
        numbers(words_after(words(lines(stat)[0]), 1))
    } else {
        Seq::empty()
    }
}

/// CPU: busy share in percent, (user + system) * 100 / (user + system +
/// idle), from the first, third and fourth counters; `?` without them.
pub open spec fn cpu_text(stat: Seq<char>) -> Seq<char> {
    let p = cpu_counters(stat);
    if p.len() >= 4 && p[0] + p[2] + p[3] > 0 {
        "\u{f2db} "@ + decimal((((p[0] + p[2]) * 100) / (p[0] + p[2] + p[3])) as nat) + "%"@
    } else {
        "\u{f2db} ?%"@
    }
}

fn cpu_counters_of(stat: &str) -> (r: Vec<u64>)
    ensures
        r@.map_values(|v: u64| v as nat) == cpu_counters(stat@),
{
    let ls = split_lines(stat);
    let mut r: Vec<u64> = Vec::new();
    if ls.len() == 0 {
        assert(r@.map_values(|v: u64| v as nat) =~= Seq::<nat>::empty());
        return r;
    }
    let w = split_words(ls[0].as_str());
    let ghost wv = strings_view(w@);
    assert(wv == words(lines(stat@)[0]));
    let n = w.len();
    if n < 1 {
        assert(r@.map_values(|v: u64| v as nat) =~= Seq::<nat>::empty());
        return r;
    }
    let mut i: usize = 1;
    assert(wv.skip(1).subrange(0, 0) =~= Seq::<Seq<char>>::empty());
    assert(r@.map_values(|v: u64| v as nat) =~= Seq::<nat>::empty());
    while i < n
        invariant
            n == w@.len(),
            wv == strings_view(w@),
            1 <= i <= n,
            r@.map_values(|v: u64| v as nat) == numbers(wv.skip(1).subrange(0, i - 1)),
        decreases n - i,
    {
        let ghost part = wv.skip(1).subrange(0, i as int);
        assert(part.drop_last() =~= wv.skip(1).subrange(0, i - 1));
        assert(part.last() == w@[i as int]@);
        match parse_number(w[i].as_str(), u64::MAX) {
            Some(v) => {
                let ghost before = r@.map_values(|v: u64| v as nat);
                r.push(v);
                assert(r@.map_values(|v: u64| v as nat) =~= before.push(v as nat));
            },
            None => {},
        }
        i += 1;
    }
    assert(wv.skip(1).subrange(0, n - 1) =~= wv.skip(1));
    r
}

proof fn lemma_share_at_most_whole(part: int, whole: int)
    requires
        0 <= part <= whole,
        whole > 0,
    ensures
        part * 100 / whole <= 100,
{
    assert(part * 100 / whole <= 100) by (nonlinear_arith)
        requires
            0 <= part <= whole,
            whole > 0,
    ;
}

/// Status of the CPU module.
pub fn get_cpu_status(stat: &str) -> (r: ModuleStatus)
    ensures
        r.text@ == cpu_text(stat@),
        r.class@.len() == 0,
        r.tooltip@.len() == 0,
{
    let p = cpu_counters_of(stat);
    if p.len() >= 4 {
        let ghost pv = p@.map_values(|v: u64| v as nat);
        assert(pv[0] == p@[0] as nat && pv[2] == p@[2] as nat && pv[3] == p@[3] as nat);
        let user = p[0] as u128;
        let system = p[2] as u128;
        let idle = p[3] as u128;
        let total = user + system + idle;
        if total > 0 {
            let usage = (user + system) * 100 / total;
            proof {
                lemma_share_at_most_whole((user + system) as int, total as int);
            }
            let text = String::from_str("\u{f2db} ").concat(to_decimal(usage as u64).as_str()).concat("%");
            return ModuleStatus::new(text.as_str());
        }
    }
    ModuleStatus::new("\u{f2db} ?%")
}

/// The battery icon for a status and a charge level in percent.
pub open spec fn battery_icon(status: Seq<char>, level: nat) -> Seq<char> {
    if status == "Charging"@ {
        "\u{f0e7}"@
    } else if status == "Full"@ {
        "\u{f1e6}"@
    } else if level > 75 {
        "\u{f240}"@
    } else if level > 50 {
        "\u{f241}"@
    } else if level > 25 {
        "\u{f242}"@
    } else if level > 10 {
        "\u{f243}"@
    } else {
        "\u{f244}"@
    }
}

/// Battery: nothing without a battery; the icon alone when full; else the
/// icon and the capacity as read (`?` when unreadable).
pub open spec fn battery_text(b: Option<(Option<Seq<char>>, Option<Seq<char>>)>) -> Seq<char> {
    match b {
        None => Seq::empty(),
        Some((capacity, status)) => {
            let cap = match capacity {
                Some(c) => trimmed(c),
                None => "?"@,
            };
            let st = match status {
                Some(s) => trimmed(s),
                None => "Unknown"@,
            };
            let level = match parsed_number(cap, u32::MAX as nat) {
                Some(v) => v,
                None => 0,
            };
            if st == "Full"@ {
                battery_icon(st, level)
            } else {
                battery_icon(st, level) + " "@ + cap + "%"@
            }
        },
    }
}

/// Status of the battery module.
pub fn get_battery_status(battery: &Option<(Option<String>, Option<String>)>) -> (r: ModuleStatus)
    ensures
        r.text@ == battery_text(battery.deep_view()),
        r.class@.len() == 0,
        r.tooltip@.len() == 0,
{
    let (capacity, status) = match battery {
        None => {
            proof {
                reveal_strlit("");
            }
            return ModuleStatus::new("");
        },
        Some(b) => b,
    };
    let cap = match capacity {
        Some(c) => trim(c.as_str()),
        None => String::from_str("?"),
    };
    let st = match status {
        Some(s) => trim(s.as_str()),
        None => String::from_str("Unknown"),
    };
    let level: u64 = match parse_number(cap.as_str(), 0xffff_ffff) {
        Some(v) => v,
        None => 0,
    };
    let charging = str_eq(st.as_str(), "Charging");
    let full = str_eq(st.as_str(), "Full");
    let icon = if charging {
        "\u{f0e7}"
    } else if full {
        "\u{f1e6}"
    } else if level > 75 {
        "\u{f240}"
    } else if level > 50 {
        "\u{f241}"
    } else if level > 25 {
        "\u{f242}"
    } else if level > 10 {
        "\u{f243}"
    } else {
        "\u{f244}"
    };
    if full {
        ModuleStatus::new(icon)
    } else {
        ModuleStatus::new(String::from_str(icon).concat(" ").concat(cap.as_str()).concat("%").as_str())
    }
}

/// Mail: an envelope, with the unread count when there is unread mail.
pub open spec fn mail_text(unread: u64) -> Seq<char> {
    if unread > 0 {
        "\u{f0e0}"@ + " "@ + decimal(unread as nat)
    } else {
        "\u{f0e0}"@
    }
}

/// Status of the mail module.
pub fn get_mail_status(unread: u64) -> (r: ModuleStatus)
    ensures
        r.text@ == mail_text(unread),
        r.class@.len() == 0,
        r.tooltip@.len() == 0,
{
    if unread > 0 {
        ModuleStatus::new(String::from_str("\u{f0e0}").concat(" ").concat(to_decimal(unread).as_str()).as_str())
    } else {
        ModuleStatus::new("\u{f0e0}")
    }
}

/// Calendar: a calendar icon and the date as read, or `???`.
pub open spec fn calendar_text(date: Option<Seq<char>>) -> Seq<char> {
    "\u{f073} "@ + match date {
        Some(d) => trimmed(d),
        None => "???"@,
    }
}

/// Status of the calendar module.
pub fn get_calendar_status(date: &Option<String>) -> (r: ModuleStatus)
    ensures
        r.text@ == calendar_text(date.deep_view()),
        r.class@.len() == 0,
        r.tooltip@.len() == 0,
{
    let d = match date {
        Some(d) => trim(d.as_str()),
        None => String::from_str("???"),
    };
    ModuleStatus::new(String::from_str("\u{f073} ").concat(d.as_str()).as_str())
}

/// Status of the file-sharing module.
pub fn get_localsend_status() -> (r: ModuleStatus)
    ensures
        r.text@ == "\u{2191}\u{2193}"@,
        r.class@.len() == 0,
        r.tooltip@.len() == 0,
{
    ModuleStatus::new("\u{2191}\u{2193}")
}

/// VPN: a shield when the tunnel link is up, else the shield and off.
pub open spec fn vpn_text(link: Option<Seq<char>>) -> Seq<char> {
    if output_has(link, "UP"@) {
        "\u{f3ed}"@
    } else {
        "\u{f3ed}"@ + " off"@
    }
}

/// Status of the VPN module.
pub fn get_vpn_status(link: &Option<String>) -> (r: ModuleStatus)
    ensures
        r.text@ == vpn_text(link.deep_view()),
        r.class@.len() == 0,
        r.tooltip@.len() == 0,
{
    if output_contains(link, "UP") {
        ModuleStatus::new("\u{f3ed}")
    } else {
        ModuleStatus::new(String::from_str("\u{f3ed}").concat(" off").as_str())
    }
}

/// Status of the private-network client module.
pub fn get_surfshark_status() -> (r: ModuleStatus)
    ensures
        r.text@ == "\u{f21b}"@,
        r.class@.len() == 0,
        r.tooltip@.len() == 0,
{
    ModuleStatus::new("\u{f21b}")
}

/// The status text of `module` from `reading`. A reading of another kind
/// than the module's probe carries nothing for it, as a failed read.
pub open spec fn status_text(module: Seq<char>, reading: Reading) -> Seq<char> {
    match probe_of(module) {
        Probe::Audio => match reading {
            Reading::Audio { mute, volume } => audio_text(mute.deep_view(), volume.deep_view()),
            _ => audio_text(None, None),
        },
        Probe::Bluetooth => match reading {
            Reading::Bluetooth { show, connected } => bluetooth_text(show.deep_view(), connected.deep_view()),
            _ => bluetooth_text(None, None),
        },
        Probe::Network => match reading {
            Reading::Network { wifi, links } => network_text(wifi.deep_view(), links.deep_view()),
            _ => network_text(None, None),
        },
        Probe::Cpu => match reading {
            Reading::Cpu { stat } => cpu_text(stat@),
            _ => cpu_text(Seq::empty()),
        },
        Probe::Battery => match reading {
            Reading::Battery { battery } => battery_text(battery.deep_view()),
            _ => battery_text(None),
        },
        Probe::Mail => match reading {
            Reading::Mail { unread } => mail_text(unread),
            _ => mail_text(0),
        },
        Probe::Calendar => match reading {
            Reading::Calendar { date } => calendar_text(date.deep_view()),
            _ => calendar_text(None),
        },
        Probe::Vpn => match reading {
            Reading::Vpn { link } => vpn_text(link.deep_view()),
            _ => vpn_text(None),
        },
        Probe::Nothing => if module == "localsend"@ {
            "\u{2191}\u{2193}"@
        } else if module == "surfshark"@ {
            "\u{f21b}"@
        } else {
            "?"@
        },
    }
}

/// The status record of `module` from what its probe read; highlighted
/// with the pinned class when `pinned`.
pub fn get_status(module: &str, pinned: bool, reading: &Reading) -> (r: ModuleStatus)
    ensures
        r.text@ == status_text(module@, *reading),
        r.class@ == if pinned {
            pinned_class()
        } else {
            Seq::empty()
        },
        r.tooltip@.len() == 0,
{
    let none: Option<String> = None;
    let status = match probe_for(module) {
        Probe::Audio => match reading {
            Reading::Audio { mute, volume } => get_audio_status(mute, volume),
            _ => get_audio_status(&none, &none),
        },
        Probe::Bluetooth => match reading {
            Reading::Bluetooth { show, connected } => get_bluetooth_status(show, connected),
            _ => get_bluetooth_status(&none, &none),
        },
        Probe::Network => match reading {
            Reading::Network { wifi, links } => get_network_status(wifi, links),
            _ => get_network_status(&none, &none),
        },
        Probe::Cpu => match reading {
            Reading::Cpu { stat } => get_cpu_status(stat.as_str()),
            _ => {
                proof {
                    reveal_strlit("");
                }
                get_cpu_status("")
            },
        },
        Probe::Battery => match reading {
            Reading::Battery { battery } => get_battery_status(battery),
            _ => get_battery_status(&None),
        },
        Probe::Mail => match reading {
            Reading::Mail { unread } => get_mail_status(*unread),
            _ => get_mail_status(0),
        },
        Probe::Calendar => match reading {
            Reading::Calendar { date } => get_calendar_status(date),
            _ => get_calendar_status(&none),
        },
        Probe::Vpn => match reading {
            Reading::Vpn { link } => get_vpn_status(link),
            _ => get_vpn_status(&none),
        },
        Probe::Nothing => if str_eq(module, "localsend") {
            get_localsend_status()
        } else if str_eq(module, "surfshark") {
            get_surfshark_status()
        } else {
            ModuleStatus::new("?")
        },
    };
    if pinned {
        ModuleStatus { class: String::from_str("pinned"), ..status }
    } else {
        status
    }
}

/// Whether a line of the sound server's event stream reports a sink change.
pub fn is_sink_change(line: &str) -> (r: bool)
    ensures
        r == has_infix(line@, "'change' on sink"@),
{
    contains(line, "'change' on sink")
}

/// Whether a line of the power daemon's event stream concerns the battery
/// or the mains supply.
pub fn is_power_event(line: &str) -> (r: bool)
    ensures
        r == (has_infix(line@, "battery"@) || has_infix(line@, "line_power"@) || has_infix(line@, "DisplayDevice"@)),
{
    contains(line, "battery") || contains(line, "line_power") || contains(line, "DisplayDevice")
}

/// Whether `c` is the lower-case ASCII letter `l`, in either case.
pub open spec fn same_letter(c: char, l: char) -> bool {
    c == l || (c as u32) + 32 == (l as u32)
}

/// Whether the type file of a power supply names a battery: its trimmed
/// text is `battery`, in any ASCII case.
pub open spec fn names_battery(type_text: Seq<char>) -> bool {
    let t = trimmed(type_text);
    t.len() == "battery"@.len() && forall|i: int| 0 <= i < t.len() ==> same_letter(#[trigger] t[i], "battery"@[i])
}

/// Whether a power supply's type file names a battery.
pub fn is_battery_supply(type_text: &str) -> (r: bool)
    ensures
        r == names_battery(type_text@),
{
    let t = trim(type_text);
    let word = "battery";
    proof {
        reveal_strlit("battery");
    }
    let n = t.as_str().unicode_len();
    if n != 7 {
        return false;
    }
    let mut i: usize = 0;
    while i < n
        invariant
            n == t@.len(),
            n == word@.len(),
            word@ == "battery"@,
            t@ == trimmed(type_text@),
            i <= n,
            forall|j: int| 0 <= j < i ==> same_letter(#[trigger] t@[j], word@[j]),
        decreases n - i,
    {
        let c = t.as_str().get_char(i);
        let l = word.get_char(i);
        if !(c == l || (c as u32) + 32 == l as u32) {
            assert(!same_letter(t@[i as int], word@[i as int]));
            return false;
        }
        i += 1;
    }
    true
}

/// Whether a mail file is unread: it lies in a `new` directory directly
/// under an `INBOX` directory.
pub fn is_unread_message(dir_name: &str, mailbox_name: &str) -> (r: bool)
    ensures
        r == (dir_name@ == "new"@ && mailbox_name@ == "INBOX"@),
{
    str_eq(dir_name, "new") && str_eq(mailbox_name, "INBOX")
}

} // verus!
