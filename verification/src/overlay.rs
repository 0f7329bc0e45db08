//! The state behind the match overlay: factions and servers, the kill tally,
//! the timer, and what a destroyed vehicle adds to the overlay.
use vstd::prelude::*;
use vstd::string::*;
use crate::character::Character;
use crate::events::{zone_id_is_vr, Event, ServiceMessage, Subscribe, VehicleDestroy};
use crate::feed::{FeedBuffer, FeedState};
use crate::text::{
    decimal, digits_value, lemma_decimal_denotes, lemma_two_digits, pad_left, pad_right, push_decimal,
    push_decimal_pad_left, push_pad_right,
};

verus! {

/// A faction of the game.
#[derive(Debug, PartialEq, Eq, Structural)]
pub enum Faction {
    NS,
    VS,
    NC,
    TR,
}

impl Faction {
    /// The faction's short name.
    pub open spec fn name(self) -> Seq<char> {
        match self {
            Faction::NS => "NS"@,
            Faction::NC => "NC"@,
            Faction::TR => "TR"@,
            Faction::VS => "VS"@,
        }
    }

    /// The faction's short name.
    pub fn to_string(&self) -> (r: String)
        ensures
            r@ == self.name(),
    {
        match self {
            Faction::NS => "NS".to_owned(),
            Faction::NC => "NC".to_owned(),
            Faction::TR => "TR".to_owned(),
            Faction::VS => "VS".to_owned(),
        }
    }

    /// The faction picked at position `idx` of the faction list (VS, NC, TR).
    pub fn from_dropdown(idx: usize) -> (r: Faction)
        requires
            idx < 3,
        ensures
            r == (if idx == 0 { Faction::VS } else if idx == 1 { Faction::NC } else { Faction::TR }),
    {
        if idx == 0 {
            Faction::VS
        } else if idx == 1 {
            Faction::NC
        } else {
            Faction::TR
        }
    }
}

/// A game server.
#[derive(Clone, Copy, Debug, PartialEq, Eq, Structural)]
pub enum Server {
    Connery,
    Miller,
    Cobalt,
    Emerald,
    Jaeger,
    Briggs,
}

impl Server {
    /// The server's name.
    pub open spec fn name(self) -> Seq<char> {
        match self {
            Server::Connery => "Connery"@,
            Server::Miller => "Miller"@,
            Server::Cobalt => "Cobalt"@,
            Server::Emerald => "Emerald"@,
            Server::Jaeger => "Jaeger"@,
            Server::Briggs => "Briggs"@,
        }
    }

    /// The server's world id, in decimal.
    pub open spec fn world(self) -> nat {
        match self {
            Server::Connery => 1,
            Server::Miller => 10,
            Server::Cobalt => 13,
            Server::Emerald => 17,
            Server::Jaeger => 19,
            Server::Briggs => 25,
        }
    }

    /// The server's name.
    pub fn to_string(&self) -> (r: String)
        ensures
            r@ == self.name(),
    {
        match self {
            Server::Connery => "Connery".to_owned(),
            Server::Miller => "Miller".to_owned(),
            Server::Cobalt => "Cobalt".to_owned(),
            Server::Emerald => "Emerald".to_owned(),
            Server::Jaeger => "Jaeger".to_owned(),
            Server::Briggs => "Briggs".to_owned(),
        }
    }

    /// The server's world id, as the push service names it.
    pub fn get_server_num(&self) -> (r: String)
        ensures
            r@ == decimal(self.world()),
    {
        let mut r = String::new();
        match self {
            Server::Connery => push_decimal(&mut r, 1),
            Server::Miller => push_decimal(&mut r, 10),
            Server::Cobalt => push_decimal(&mut r, 13),
            Server::Emerald => push_decimal(&mut r, 17),
            Server::Jaeger => push_decimal(&mut r, 19),
            Server::Briggs => push_decimal(&mut r, 25),
        }
        r
    }

    /// The server at position `idx` of the server list.
    pub fn from_index(idx: usize) -> (r: Server)
        requires
            idx < 6,
        ensures
            r == server_at(idx as int),
    {
        match idx {
            0 => Server::Connery,
            1 => Server::Miller,
            2 => Server::Cobalt,
            3 => Server::Emerald,
            4 => Server::Jaeger,
            _ => Server::Briggs,
        }
    }
}

/// The server list: Connery, Miller, Cobalt, Emerald, Jaeger, Briggs.
pub open spec fn server_at(idx: int) -> Server {
    if idx == 0 {
        Server::Connery
    } else if idx == 1 {
        Server::Miller
    } else if idx == 2 {
        Server::Cobalt
    } else if idx == 3 {
        Server::Emerald
    } else if idx == 4 {
        Server::Jaeger
    } else {
        Server::Briggs
    }
}

/// Different servers have different world ids and names.
pub proof fn lemma_servers_distinct(a: Server, b: Server)
    requires
        a != b,
    ensures
        a.world() != b.world(),
        a.name() != b.name(),
{
    reveal_strlit("Connery");
    reveal_strlit("Miller");
    reveal_strlit("Cobalt");
    reveal_strlit("Emerald");
    reveal_strlit("Jaeger");
    reveal_strlit("Briggs");
    assert(a.name()[0] != b.name()[0] || a.name().len() != b.name().len() || a.name()[1] != b.name()[1]);
}

/// What the listener hands to the overlay.
#[derive(Debug, PartialEq)]
pub enum UIEvent {
    /// A kill: the attacker's faction, the victim's faction, the vehicle id.
    Score(u8, u8, u32),
    /// A line for the kill feed.
    Feed(String),
}

/// The vehicle names, by vehicle id.
pub open spec fn vehicle_name_of(id: int) -> Seq<char> {
    if id == 1 { "Flash"@ }
    else if id == 2 { "Sunderer"@ }
    else if id == 3 { "Lightning"@ }
    else if id == 4 { "Magrider"@ }
    else if id == 5 { "Vanguard"@ }
    else if id == 6 { "Prowler"@ }
    else if id == 7 { "Scythe"@ }
    else if id == 8 { "Reaver"@ }
    else if id == 9 { "Mosquito"@ }
    else if id == 10 { "Liberator"@ }
    else if id == 11 { "Galaxy"@ }
    else if id == 12 { "Harasser"@ }
    else if id == 13 { "Drop Pod"@ }
    else if id == 14 { "Valkyrie"@ }
    else if id == 15 { "ANT"@ }
    else { ""@ }
}

/// The vehicle table, id by id: 0 has no name; then Flash, Sunderer,
/// Lightning, Magrider, Vanguard, Prowler, Scythe, Reaver, Mosquito,
/// Liberator, Galaxy, Harasser, Drop Pod, Valkyrie and ANT.
pub proof fn lemma_vehicle_table()
    ensures
        vehicle_name_of(0) =~= Seq::<char>::empty(),
        vehicle_name_of(1) =~= seq!['F', 'l', 'a', 's', 'h'],
        vehicle_name_of(2) =~= seq!['S', 'u', 'n', 'd', 'e', 'r', 'e', 'r'],
        vehicle_name_of(3) =~= seq!['L', 'i', 'g', 'h', 't', 'n', 'i', 'n', 'g'],
        vehicle_name_of(4) =~= seq!['M', 'a', 'g', 'r', 'i', 'd', 'e', 'r'],
        vehicle_name_of(5) =~= seq!['V', 'a', 'n', 'g', 'u', 'a', 'r', 'd'],
        vehicle_name_of(6) =~= seq!['P', 'r', 'o', 'w', 'l', 'e', 'r'],
        vehicle_name_of(7) =~= seq!['S', 'c', 'y', 't', 'h', 'e'],
        vehicle_name_of(8) =~= seq!['R', 'e', 'a', 'v', 'e', 'r'],
        vehicle_name_of(9) =~= seq!['M', 'o', 's', 'q', 'u', 'i', 't', 'o'],
        vehicle_name_of(10) =~= seq!['L', 'i', 'b', 'e', 'r', 'a', 't', 'o', 'r'],
        vehicle_name_of(11) =~= seq!['G', 'a', 'l', 'a', 'x', 'y'],
        vehicle_name_of(12) =~= seq!['H', 'a', 'r', 'a', 's', 's', 'e', 'r'],
        vehicle_name_of(13) =~= seq!['D', 'r', 'o', 'p', ' ', 'P', 'o', 'd'],
        vehicle_name_of(14) =~= seq!['V', 'a', 'l', 'k', 'y', 'r', 'i', 'e'],
        vehicle_name_of(15) =~= seq!['A', 'N', 'T'],
{
    reveal_strlit("");
    reveal_strlit("Flash");
    reveal_strlit("Sunderer");
    reveal_strlit("Lightning");
    reveal_strlit("Magrider");
    reveal_strlit("Vanguard");
    reveal_strlit("Prowler");
    reveal_strlit("Scythe");
    reveal_strlit("Reaver");
    reveal_strlit("Mosquito");
    reveal_strlit("Liberator");
    reveal_strlit("Galaxy");
    reveal_strlit("Harasser");
    reveal_strlit("Drop Pod");
    reveal_strlit("Valkyrie");
    reveal_strlit("ANT");
}

/// The name of vehicle `id`.
pub fn vehicle_name(id: usize) -> (r: &'static str)
    requires
        id < 16,
    ensures
        r@ == vehicle_name_of(id as int),
{
    match id {
        1 => "Flash",
        2 => "Sunderer",
        3 => "Lightning",
        4 => "Magrider",
        5 => "Vanguard",
        6 => "Prowler",
        7 => "Scythe",
        8 => "Reaver",
        9 => "Mosquito",
        10 => "Liberator",
        11 => "Galaxy",
        12 => "Harasser",
        13 => "Drop Pod",
        14 => "Valkyrie",
        15 => "ANT",
        _ => "",
    }
}

/// One tally line: the name left-aligned in 12 columns, then three counts
/// right-aligned in 3 columns each, separated by spaces.
#[verifier::opaque]
pub open spec fn tally_row(name: Seq<char>, a: int, b: int, c: int) -> Seq<char> {
    pad_right(name, 12) + seq![' '] + pad_left(decimal(a as nat), 3, ' ') + seq![' '] + pad_left(
        decimal(b as nat),
        3,
        ' ',
    ) + seq![' '] + pad_left(decimal(c as nat), 3, ' ') + seq!['\n']
}

/// The kills of faction `f` on vehicle `v`.
pub open spec fn kills(t: [[u32; 16]; 4], f: int, v: int) -> int {
    t@[f]@[v] as int
}

/// The tally lines of vehicles `from` up to `to` (not included), by name.
pub open spec fn vehicle_rows(t: [[u32; 16]; 4], from: int, to: int) -> Seq<char>
    decreases to - from,
{
    if to <= from {
        Seq::empty()
    } else {
        vehicle_rows(t, from, to - 1) + tally_row(
            vehicle_name_of(to - 1),
            kills(t, 1, to - 1),
            kills(t, 2, to - 1),
            kills(t, 3, to - 1),
        )
    }
}

/// The kills on main battle tanks, per faction column: the tanks of the
/// two other factions.
pub open spec fn mbt_kills(t: [[u32; 16]; 4]) -> (int, int, int) {
    (kills(t, 1, 5) + kills(t, 1, 6), kills(t, 2, 4) + kills(t, 2, 6), kills(t, 3, 4) + kills(t, 3, 5))
}

/// The kills on empire-specific fighters, per faction column: the fighters
/// of the two other factions.
pub open spec fn esf_kills(t: [[u32; 16]; 4]) -> (int, int, int) {
    (kills(t, 1, 8) + kills(t, 1, 9), kills(t, 2, 7) + kills(t, 2, 9), kills(t, 3, 7) + kills(t, 3, 8))
}

/// The tally table: a header, the ground vehicles, the tanks, the fighters,
/// and the other aircraft and vehicles.
pub open spec fn kills_text(t: [[u32; 16]; 4]) -> Seq<char> {
    "             VS  NC  TR\n"@ + vehicle_rows(t, 1, 4) + tally_row(
        "MBT"@,
        mbt_kills(t).0,
        mbt_kills(t).1,
        mbt_kills(t).2,
    ) + tally_row("ESF"@, esf_kills(t).0, esf_kills(t).1, esf_kills(t).2) + vehicle_rows(t, 10, 16)
}

/// The tally line of vehicle `v`: its name, then the kills of faction 1
/// (VS), 2 (NC) and 3 (TR) on it.
pub open spec fn vehicle_row_of(t: [[u32; 16]; 4], v: int) -> Seq<char> {
    tally_row(vehicle_name_of(v), t@[1]@[v] as int, t@[2]@[v] as int, t@[3]@[v] as int)
}

/// The tally table line by line: the header; Flash, Sunderer and Lightning;
/// the tanks (VS: Vanguard and Prowler, NC: Magrider and Prowler, TR:
/// Magrider and Vanguard); the fighters (VS: Reaver and Mosquito, NC:
/// Scythe and Mosquito, TR: Scythe and Reaver); then Liberator up to ANT.
/// Each vehicle line shows the VS, NC and TR kills, in that order.
pub proof fn lemma_kills_text_lines(t: [[u32; 16]; 4])
    ensures
        kills_text(t) == "             VS  NC  TR\n"@ + (vehicle_row_of(t, 1) + vehicle_row_of(t, 2)
            + vehicle_row_of(t, 3)) + tally_row(
            "MBT"@,
            t@[1]@[5] + t@[1]@[6],
            t@[2]@[4] + t@[2]@[6],
            t@[3]@[4] + t@[3]@[5],
        ) + tally_row(
            "ESF"@,
            t@[1]@[8] + t@[1]@[9],
            t@[2]@[7] + t@[2]@[9],
            t@[3]@[7] + t@[3]@[8],
        ) + (vehicle_row_of(t, 10) + vehicle_row_of(t, 11) + vehicle_row_of(t, 12) + vehicle_row_of(
            t,
            13,
        ) + vehicle_row_of(t, 14) + vehicle_row_of(t, 15)),
{
    assert(vehicle_rows(t, 1, 1) =~= Seq::<char>::empty());
    assert(vehicle_rows(t, 1, 2) =~= vehicle_row_of(t, 1));
    assert(vehicle_rows(t, 1, 3) =~= vehicle_row_of(t, 1) + vehicle_row_of(t, 2));
    assert(vehicle_rows(t, 1, 4) =~= vehicle_row_of(t, 1) + vehicle_row_of(t, 2) + vehicle_row_of(
        t,
        3,
    ));
    let r10 = vehicle_row_of(t, 10);
    let r11 = vehicle_row_of(t, 11);
    let r12 = vehicle_row_of(t, 12);
    let r13 = vehicle_row_of(t, 13);
    let r14 = vehicle_row_of(t, 14);
    let r15 = vehicle_row_of(t, 15);
    assert(vehicle_rows(t, 10, 10) =~= Seq::<char>::empty());
    assert(vehicle_rows(t, 10, 11) =~= r10);
    assert(vehicle_rows(t, 10, 12) =~= r10 + r11);
    assert(vehicle_rows(t, 10, 13) =~= r10 + r11 + r12);
    assert(vehicle_rows(t, 10, 14) =~= r10 + r11 + r12 + r13);
    assert(vehicle_rows(t, 10, 15) =~= r10 + r11 + r12 + r13 + r14);
    assert(vehicle_rows(t, 10, 16) =~= r10 + r11 + r12 + r13 + r14 + r15);
    assert(mbt_kills(t) == (t@[1]@[5] + t@[1]@[6], t@[2]@[4] + t@[2]@[6], t@[3]@[4] + t@[3]@[5]));
    assert(esf_kills(t) == (t@[1]@[8] + t@[1]@[9], t@[2]@[7] + t@[2]@[9], t@[3]@[7] + t@[3]@[8]));
}

/// A number below 1000 has at most three decimal digits.
proof fn lemma_decimal_below_1000(n: nat)
    requires
        n < 1000,
    ensures
        decimal(n).len() <= 3,
{
    if n >= 10 {
        assert(decimal(n).len() == decimal(n / 10).len() + 1);
        if n / 10 >= 10 {
            assert(decimal(n / 10).len() == decimal(n / 10 / 10).len() + 1);
            assert(n / 10 / 10 < 10);
            assert(decimal(n / 10 / 10).len() == 1);
        } else {
            assert(decimal(n / 10).len() == 1);
        }
    }
}

/// The columns of a tally line, for a name of at most 12 characters and
/// counts below 1000: the name padded to 12 characters, a space, the first
/// count right-aligned in characters 13 to 15, a space, the second in 17
/// to 19, a space, the third in 21 to 23, and a newline. Each count column
/// reads back as its count.
pub proof fn lemma_tally_row_columns(name: Seq<char>, a: nat, b: nat, c: nat)
    requires
        name.len() <= 12,
        a < 1000,
        b < 1000,
        c < 1000,
    ensures
        tally_row(name, a as int, b as int, c as int).len() == 25,
        tally_row(name, a as int, b as int, c as int).take(12) == pad_right(name, 12),
        tally_row(name, a as int, b as int, c as int)[12] == ' ',
        tally_row(name, a as int, b as int, c as int).subrange(13, 16) == pad_left(
            decimal(a),
            3,
            ' ',
        ),
        tally_row(name, a as int, b as int, c as int)[16] == ' ',
        tally_row(name, a as int, b as int, c as int).subrange(17, 20) == pad_left(
            decimal(b),
            3,
            ' ',
        ),
        tally_row(name, a as int, b as int, c as int)[20] == ' ',
        tally_row(name, a as int, b as int, c as int).subrange(21, 24) == pad_left(
            decimal(c),
            3,
            ' ',
        ),
        tally_row(name, a as int, b as int, c as int)[24] == '\n',
        digits_value(decimal(a)) == a && digits_value(decimal(b)) == b && digits_value(decimal(c))
            == c,
{
    reveal(tally_row);
    lemma_decimal_below_1000(a);
    lemma_decimal_below_1000(b);
    lemma_decimal_below_1000(c);
    lemma_decimal_denotes(a);
    lemma_decimal_denotes(b);
    lemma_decimal_denotes(c);
    let row = tally_row(name, a as int, b as int, c as int);
    let p = pad_right(name, 12);
    let pa = pad_left(decimal(a), 3, ' ');
    let pb = pad_left(decimal(b), 3, ' ');
    let pc = pad_left(decimal(c), 3, ' ');
    assert(p.len() == 12);
    assert(pa.len() == 3 && pb.len() == 3 && pc.len() == 3);
    assert(row =~= p + seq![' '] + pa + seq![' '] + pb + seq![' '] + pc + seq!['\n']);
    assert(row.take(12) =~= p);
    assert(row.subrange(13, 16) =~= pa);
    assert(row.subrange(17, 20) =~= pb);
    assert(row.subrange(21, 24) =~= pc);
}

/// A timer text: the minutes, a `:`, and two digits of seconds; read back,
/// the minutes are `secs / 60` and the seconds `secs % 60`.
pub proof fn lemma_time_text_reads_back(secs: nat)
    ensures
        time_text(secs).len() >= 4,
        time_text(secs)[time_text(secs).len() - 3] == ':',
        digits_value(time_text(secs).take(time_text(secs).len() - 3)) == secs / 60,
        digits_value(time_text(secs).skip(time_text(secs).len() - 2)) == secs % 60,
        forall|i: int|
            0 <= i < time_text(secs).len() && i != time_text(secs).len() - 3 ==> '0'
                <= #[trigger] time_text(secs)[i] <= '9',
{
    let m = decimal(secs / 60);
    let s = pad_left(decimal(secs % 60), 2, '0');
    lemma_decimal_denotes(secs / 60);
    lemma_two_digits(secs % 60);
    let tt = time_text(secs);
    assert(tt =~= m + seq![':'] + s);
    assert(tt.take(tt.len() - 3) =~= m);
    assert(tt.skip(tt.len() - 2) =~= s);
    assert forall|i: int| 0 <= i < tt.len() && i != tt.len() - 3 implies '0' <= #[trigger] tt[i]
        <= '9' by {
        if i < m.len() {
            assert(tt[i] == m[i]);
        } else {
            assert(tt[i] == s[i - m.len() - 1]);
        }
    }
}

/// Whether the tank and fighter sums of a tally fit in 32 bits.
pub open spec fn tally_sums_fit(t: [[u32; 16]; 4]) -> bool {
    &&& mbt_kills(t).0 <= u32::MAX
    &&& mbt_kills(t).1 <= u32::MAX
    &&& mbt_kills(t).2 <= u32::MAX
    &&& esf_kills(t).0 <= u32::MAX
    &&& esf_kills(t).1 <= u32::MAX
    &&& esf_kills(t).2 <= u32::MAX
}

/// Appends one tally line.
fn push_tally_row(out: &mut String, name: &str, a: u32, b: u32, c: u32)
    ensures
        final(out)@ == old(out)@ + tally_row(name@, a as int, b as int, c as int),
{
    proof {
        reveal_strlit(" ");
        reveal_strlit("\n");
        reveal(tally_row);
    }
    push_pad_right(out, name, 12);
    out.append(" ");
    push_decimal_pad_left(out, a as u64, 3, " ");
    out.append(" ");
    push_decimal_pad_left(out, b as u64, 3, " ");
    out.append(" ");
    push_decimal_pad_left(out, c as u64, 3, " ");
    out.append("\n");
    assert(final(out)@ =~= old(out)@ + tally_row(name@, a as int, b as int, c as int));
}

/// Appends the tally lines of vehicles `from` up to `to` (not included).
fn push_vehicle_rows(out: &mut String, kill_tally: &[[u32; 16]; 4], from: usize, to: usize)
    requires
        1 <= from <= to <= 16,
    ensures
        final(out)@ == old(out)@ + vehicle_rows(*kill_tally, from as int, to as int),
{
    let mut i = from;
    assert(vehicle_rows(*kill_tally, from as int, from as int) =~= Seq::<char>::empty());
    assert(out@ =~= old(out)@ + vehicle_rows(*kill_tally, from as int, from as int));
    while i < to
        invariant
            from <= i <= to <= 16,
            out@ == old(out)@ + vehicle_rows(*kill_tally, from as int, i as int),
        decreases to - i,
    {
        push_tally_row(out, vehicle_name(i), kill_tally[1][i], kill_tally[2][i], kill_tally[3][i]);
        i = i + 1;
        assert(out@ =~= old(out)@ + vehicle_rows(*kill_tally, from as int, i as int));
    }
}

/// The kill tally as a table, one line per vehicle kind, one column per
/// faction (VS, NC, TR).
pub fn render_kills(kill_tally: &[[u32; 16]; 4]) -> (r: String)
    requires
        tally_sums_fit(*kill_tally),
    ensures
        r@ == kills_text(*kill_tally),
{
    let mut string = String::new();
    string.append("             VS  NC  TR\n");
    push_vehicle_rows(&mut string, kill_tally, 1, 4);
    push_tally_row(
        &mut string,
        "MBT",
        kill_tally[1][5] + kill_tally[1][6],
        kill_tally[2][4] + kill_tally[2][6],
        kill_tally[3][4] + kill_tally[3][5],
    );
    push_tally_row(
        &mut string,
        "ESF",
        kill_tally[1][8] + kill_tally[1][9],
        kill_tally[2][7] + kill_tally[2][9],
        kill_tally[3][7] + kill_tally[3][8],
    );
    push_vehicle_rows(&mut string, kill_tally, 10, 16);
    assert(string@ =~= kills_text(*kill_tally));
    string
}

/// A duration in whole seconds as minutes and two-digit seconds.
pub open spec fn time_text(secs: nat) -> Seq<char> {
    decimal(secs / 60) + seq![':'] + pad_left(decimal(secs % 60), 2, '0')
}

/// A duration in whole seconds as `minutes:seconds`, the seconds in two digits.
pub fn pretty_time(secs: u64) -> (r: String)
    ensures
        r@ == time_text(secs as nat),
{
    let secs2 = secs % 60;
    let mins = secs / 60;
    let mut r = String::new();
    push_decimal(&mut r, mins);
    proof {
        reveal_strlit(":");
        reveal_strlit("0");
    }
    r.append(":");
    push_decimal_pad_left(&mut r, secs2, 2, "0");
    assert(r@ =~= time_text(secs as nat));
    r
}

/// Whether a destroyed vehicle counts for the overlay: a known vehicle id,
/// outside the training zones.
pub fn tracks_vehicle_destroy(vd: &VehicleDestroy) -> (r: bool)
    ensures
        r == (vd.vehicle_id < 16 && !(vd.zone_id == 96 || vd.zone_id == 97 || vd.zone_id == 98)),
{
    vd.vehicle_id < 16 && !zone_id_is_vr(vd.zone_id)
}

/// The vehicle destruction that a service message carries, if it counts
/// for the overlay.
pub fn tracked_vehicle_destroy(sm: ServiceMessage) -> (r: Option<VehicleDestroy>)
    ensures
        r == (match sm.payload {
            Event::VehicleDestroy(vd) => if vd.vehicle_id < 16 && !(vd.zone_id == 96 || vd.zone_id
                == 97 || vd.zone_id == 98) {
                Some(vd)
            } else {
                None
            },
            _ => None,
        }),
{
    match sm.payload {
        Event::VehicleDestroy(vd) => {
            if tracks_vehicle_destroy(&vd) {
                Some(vd)
            } else {
                None
            }
        },
        _ => None,
    }
}

/// The feed line of a destroyed vehicle.
pub open spec fn destroy_line(attacker: Seq<char>, victim: Seq<char>, vehicle_id: int) -> Seq<char> {
    attacker + " destroyed "@ + victim + "'s "@ + vehicle_name_of(vehicle_id)
}

/// The feed line of a destroyed vehicle reads "<attacker> destroyed
/// <victim>'s <vehicle name>".
pub proof fn lemma_destroy_line_text(attacker: Seq<char>, victim: Seq<char>, vehicle_id: int)
    ensures
        destroy_line(attacker, victim, vehicle_id) == attacker + seq![
            ' ',
            'd',
            'e',
            's',
            't',
            'r',
            'o',
            'y',
            'e',
            'd',
            ' ',
        ] + victim + seq!['\'', 's', ' '] + vehicle_name_of(vehicle_id),
{
    reveal_strlit(" destroyed ");
    reveal_strlit("'s ");
    assert(" destroyed "@ =~= seq![' ', 'd', 'e', 's', 't', 'r', 'o', 'y', 'e', 'd', ' ']);
    assert("'s "@ =~= seq!['\'', 's', ' ']);
}

/// What a counted vehicle destruction adds to the overlay, given the two
/// characters involved: a feed line, then a kill for the attacker's faction.
pub fn vehicle_destroy_events(vd: &VehicleDestroy, attacker: &Character, victim: &Character) -> (r:
    Vec<UIEvent>)
    requires
        vd.vehicle_id < 16,
    ensures
        r@.len() == 2,
        r@[0] matches UIEvent::Feed(line) && line@ == destroy_line(
            attacker.name.first@,
            victim.name.first@,
            vd.vehicle_id as int,
        ),
        r@[1] == UIEvent::Score(attacker.faction_id, vd.faction_id, vd.vehicle_id),
{
    let mut line = String::new();
    line.append(attacker.name.first.as_str());
    line.append(" destroyed ");
    line.append(victim.name.first.as_str());
    line.append("'s ");
    line.append(vehicle_name(vd.vehicle_id as usize));
    let mut r = Vec::new();
    r.push(UIEvent::Feed(line));
    r.push(UIEvent::Score(attacker.faction_id, vd.faction_id, vd.vehicle_id));
    r
}

/// The subscription to the destroyed vehicles of every character on `server`.
pub fn vehicle_destroy_subscription(server: Server) -> (r: Subscribe)
    ensures
        r.characters matches Some(c) && c@.len() == 1 && c@[0]@ == "all"@,
        r.eventNames@.len() == 1 && r.eventNames@[0]@ == "VehicleDestroy"@,
        r.worlds@.len() == 1 && r.worlds@[0]@ == decimal(server.world()),
        r.logicalAndCharactersWithWorlds,
{
    Subscribe {
        characters: Some(vec!["all".to_owned()]),
        eventNames: vec!["VehicleDestroy".to_owned()],
        worlds: vec![server.get_server_num()],
        logicalAndCharactersWithWorlds: true,
    }
}

/// The length of a match, in seconds.
pub const MATCH_SECS: u64 = 900;

/// The overlay's match state, as plain values.
pub struct MatchView {
    pub started: bool,
    pub time_up: bool,
    pub tally: [[u32; 16]; 4],
    pub feed: FeedState,
}

/// The overlay's match: whether it runs, the kill tally by faction and
/// vehicle, and the kill feed.
pub struct MatchState {
    started: bool,
    time_up: bool,
    kill_tally: [[u32; 16]; 4],
    feed: FeedBuffer,
}

/// A tally with no kills.
pub open spec fn zero_tally(t: [[u32; 16]; 4]) -> bool {
    forall|f: int, v: int| 0 <= f < 4 && 0 <= v < 16 ==> #[trigger] kills(t, f, v) == 0
}

impl View for MatchState {
    type V = MatchView;

    closed spec fn view(&self) -> MatchView {
        MatchView {
            started: self.started,
            time_up: self.time_up,
            tally: self.kill_tally,
            feed: self.feed@,
        }
    }
}

impl MatchView {
    /// The invariant of a match: a feed of 10 lines.
    pub open spec fn wf(self) -> bool {
        self.feed.wf() && self.feed.size == 10
    }

    /// Whether events count: the match was started and its time is not up.
    pub open spec fn running(self) -> bool {
        self.started && !self.time_up
    }
}

/// A fresh tally with no kills.
fn new_tally() -> (r: [[u32; 16]; 4])
    ensures
        zero_tally(r),
{
    let r = [[0u32; 16]; 4];
    assert forall|f: int, v: int| 0 <= f < 4 && 0 <= v < 16 implies #[trigger] kills(r, f, v)
        == 0 by {
    }
    r
}

impl MatchState {
    /// A match not started, with no kills and an empty feed of 10 lines.
    pub fn new() -> (r: MatchState)
        ensures
            r@.wf(),
            !r@.started,
            !r@.time_up,
            zero_tally(r@.tally),
            r@.feed == FeedState::empty(10),
    {
        MatchState { started: false, time_up: false, kill_tally: new_tally(), feed: FeedBuffer::new(10) }
    }

    /// Notes the time since the timer was (re)started: past the match length
    /// the time is up.
    pub fn tick(&mut self, elapsed_secs: u64, elapsed_nanos: u32)
        requires
            old(self)@.wf(),
        ensures
            final(self)@ == (MatchView {
                time_up: old(self)@.time_up || elapsed_secs > MATCH_SECS || (elapsed_secs
                    == MATCH_SECS && elapsed_nanos > 0),
                ..old(self)@
            }),
    {
        if elapsed_secs > MATCH_SECS || (elapsed_secs == MATCH_SECS && elapsed_nanos > 0) {
            self.time_up = true;
        }
    }

    /// Takes an event of the listener: while the match runs, a kill counts
    /// for the attacker's faction and vehicle, and a line goes to the feed;
    /// otherwise the event is dropped.
    pub fn handle_event(&mut self, event: UIEvent)
        requires
            old(self)@.wf(),
            old(self)@.running() ==> (event matches UIEvent::Score(a, _v, veh) ==> a < 4 && veh
                < 16 && kills(old(self)@.tally, a as int, veh as int) < u32::MAX),
        ensures
            final(self)@.wf(),
            final(self)@.started == old(self)@.started,
            final(self)@.time_up == old(self)@.time_up,
            !old(self)@.running() ==> final(self)@ == old(self)@,
            old(self)@.running() ==> match event {
                UIEvent::Score(a, _v, veh) => {
                    &&& final(self)@.feed == old(self)@.feed
                    &&& forall|f: int, v: int|
                        0 <= f < 4 && 0 <= v < 16 ==> #[trigger] kills(final(self)@.tally, f, v)
                            == kills(old(self)@.tally, f, v) + (if f == a && v == veh {
                            1int
                        } else {
                            0int
                        })
                },
                UIEvent::Feed(line) => {
                    &&& final(self)@.tally == old(self)@.tally
                    &&& final(self)@.feed == old(self)@.feed.add(line@)
                },
            },
    {
        if self.started && !self.time_up {
            match event {
                UIEvent::Score(attacker_faction_id, _victim_faction_id, vehicle_id) => {
                    let f = attacker_faction_id as usize;
                    let v = vehicle_id as usize;
                    self.kill_tally[f][v] = self.kill_tally[f][v] + 1;
                },
                UIEvent::Feed(line) => {
                    self.feed.add_string(line);
                },
            }
        }
    }

    /// Starts (or restarts) the match: it runs, with no kills and nothing
    /// shown in the feed.
    pub fn start(&mut self)
        requires
            old(self)@.wf(),
        ensures
            final(self)@.wf(),
            final(self)@.started,
            !final(self)@.time_up,
            zero_tally(final(self)@.tally),
            final(self)@.feed == old(self)@.feed.cleared(),
    {
        self.started = true;
        self.time_up = false;
        self.kill_tally = new_tally();
        self.feed.clear();
    }

    /// The timer: the full match length once the time is up, the elapsed
    /// time while running, and zero before the start.
    pub fn timer_text(&self, elapsed_secs: u64) -> (r: String)
        ensures
            r@ == (if self@.time_up {
                time_text(MATCH_SECS as nat)
            } else if self@.started {
                time_text(elapsed_secs as nat)
            } else {
                time_text(0)
            }),
    {
        if self.time_up {
            pretty_time(MATCH_SECS)
        } else if self.started {
            pretty_time(elapsed_secs)
        } else {
            pretty_time(0)
        }
    }

    /// The match status line.
    pub fn status_text(&self) -> (r: &'static str)
        ensures
            r@ == (if self@.running() {
                "MATCH RUNNING"@
            } else if self@.time_up {
                "MATCH OVER"@
            } else {
                "MATCH NOT STARTED"@
            }),
    {
        if self.started && !self.time_up {
            "MATCH RUNNING"
        } else if self.time_up {
            "MATCH OVER"
        } else {
            "MATCH NOT STARTED"
        }
    }

    /// Whether events count now.
    pub fn is_running(&self) -> (r: bool)
        ensures
            r == self@.running(),
    {
        self.started && !self.time_up
    }

    /// The kills of faction `faction` on vehicle `vehicle`.
    pub fn kill_count(&self, faction: usize, vehicle: usize) -> (r: u32)
        requires
            faction < 4,
            vehicle < 16,
        ensures
            r == kills(self@.tally, faction as int, vehicle as int),
    {
        self.kill_tally[faction][vehicle]
    }

    /// Whether the tank and fighter sums of the tally fit in 32 bits.
    pub fn tally_fits(&self) -> (r: bool)
        ensures
            r == tally_sums_fit(self@.tally),
    {
        let t = &self.kill_tally;
        let max = u32::MAX as u64;
        (t[1][5] as u64) + (t[1][6] as u64) <= max && (t[2][4] as u64) + (t[2][6] as u64) <= max
            && (t[3][4] as u64) + (t[3][5] as u64) <= max && (t[1][8] as u64) + (t[1][9] as u64)
            <= max && (t[2][7] as u64) + (t[2][9] as u64) <= max && (t[3][7] as u64) + (
        t[3][8] as u64) <= max
    }

    /// The kill feed text.
    pub fn feed_text(&mut self) -> (r: String)
        requires
            old(self)@.wf(),
        ensures
            final(self)@ == old(self)@,
            r@ == old(self)@.feed.rendered(),
    {
        self.feed.render()
    }

    /// The kill tally table.
    pub fn tally_text(&self) -> (r: String)
        requires
            tally_sums_fit(self@.tally),
        ensures
            r@ == kills_text(self@.tally),
    {
        render_kills(&self.kill_tally)
    }
}

} // verus!
