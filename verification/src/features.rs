use vstd::prelude::*;

use crate::events::{EventFrameStageNotify, EventPaintTraverse};
use crate::font::{FontType, TextDraw};
use crate::memory::{value_address, MemoryImage, NotNull};
use crate::netvar::{get_offset, joined_key, offset_of, NetvarMap};
use crate::sdk::classes::Stage;
use crate::sdk::entities::{netvar_address, read_i32_opt};
use crate::sdk::interfaces::CEntity;
use crate::sdk::surface::Color;

verus! {

/// A feature of the client: it is created once and known by its name.
pub trait Feature: Sized {
    fn new() -> Self;

    fn name(&self) -> &str;
}

/// Aims at the closest visible enemy.
#[derive(Debug, Clone, Copy, PartialEq, Eq, Structural)]
pub struct Aimbot;

/// Turns the player's model away from the enemies.
#[derive(Debug, Clone, Copy, PartialEq, Eq, Structural)]
pub struct AntiAim;

/// Draws boxes, names, health and weapons of the enemies.
#[derive(Debug, Clone, Copy, PartialEq, Eq, Structural)]
pub struct ESP;

/// Draws the frame rate in a corner of the screen.
#[derive(Debug, Clone, Copy, PartialEq, Eq, Structural)]
pub struct Watermark;

/// Puts the camera behind the player.
#[derive(Debug, Clone, Copy, PartialEq, Eq, Structural)]
pub struct ThirdPerson;

impl Feature for Aimbot {
    fn new() -> (r: Self) {
        Aimbot
    }

    fn name(&self) -> (r: &str)
        ensures
            r@ == "Aimbot"@,
    {
        "Aimbot"
    }
}

impl Feature for AntiAim {
    fn new() -> (r: Self) {
        AntiAim
    }

    fn name(&self) -> (r: &str)
        ensures
            r@ == "AntiAim"@,
    {
        "AntiAim"
    }
}

impl Feature for ESP {
    fn new() -> (r: Self) {
        ESP
    }

    fn name(&self) -> (r: &str)
        ensures
            r@ == "ESP"@,
    {
        "ESP"
    }
}

impl Feature for Watermark {
    fn new() -> (r: Self) {
        Watermark
    }

    fn name(&self) -> (r: &str)
        ensures
            r@ == "Watermark"@,
    {
        "Watermark"
    }
}

impl Feature for ThirdPerson {
    fn new() -> (r: Self) {
        ThirdPerson
    }

    fn name(&self) -> (r: &str)
        ensures
            r@ == "ThirdPerson"@,
    {
        "ThirdPerson"
    }
}

/// The character of decimal digit `d`.
pub open spec fn digit_char(d: int) -> char {
    if d == 0 {
        '0'
    } else if d == 1 {
        '1'
    } else if d == 2 {
        '2'
    } else if d == 3 {
        '3'
    } else if d == 4 {
        '4'
    } else if d == 5 {
        '5'
    } else if d == 6 {
        '6'
    } else if d == 7 {
        '7'
    } else if d == 8 {
        '8'
    } else {
        '9'
    }
}

/// The decimal digits of `n`, most significant first, without leading zeros.
pub open spec fn nat_digits(n: nat) -> Seq<char>
    decreases n,
{
    if n < 10 {
        seq![digit_char(n as int)]
    } else {
        nat_digits(n / 10) + seq![digit_char((n % 10) as int)]
    }
}

/// The number a string of decimal digits stands for.
pub open spec fn digits_value(s: Seq<char>) -> int
    decreases s.len(),
{
    if s.len() == 0 {
        0
    } else {
        digits_value(s.drop_last()) * 10 + ((s.last() as u32) - ('0' as u32))
    }
}

/// Reading the digits `nat_digits` writes gives back the number; the first digit is
/// zero only for zero itself.
pub proof fn law_digits_round_trip(n: nat)
    ensures
        digits_value(nat_digits(n)) == n,
        nat_digits(n).len() >= 1,
        nat_digits(n)[0] == '0' ==> n == 0,
    decreases n,
{
    if n < 10 {
        assert((digit_char(n as int) as u32) - ('0' as u32) == n);
        let d = nat_digits(n);
        assert(d.drop_last() =~= Seq::<char>::empty());
        assert(digits_value(d) == digits_value(d.drop_last()) * 10 + ((d.last() as u32) - ('0' as u32)));
    } else {
        law_digits_round_trip(n / 10);
        let d = nat_digits(n);
        assert((digit_char((n % 10) as int) as u32) - ('0' as u32) == n % 10);
        assert(d.drop_last() =~= nat_digits(n / 10));
        assert(d.last() == digit_char((n % 10) as int));
        assert(digits_value(d) == digits_value(d.drop_last()) * 10 + ((d.last() as u32) - ('0' as u32)));
        assert((n / 10) * 10 + n % 10 == n);
        assert(d[0] == nat_digits(n / 10)[0]);
    }
}

/// `n` written in decimal, with a leading `-` when negative.
pub open spec fn decimal(n: int) -> Seq<char> {
    if n < 0 {
        seq!['-'] + nat_digits((-n) as nat)
    } else {
        nat_digits(n as nat)
    }
}

fn digit_str(d: u64) -> (r: &'static str)
    requires
        d < 10,
    ensures
        r@ == seq![digit_char(d as int)],
{
    proof {
        reveal_strlit("0");
        reveal_strlit("1");
        reveal_strlit("2");
        reveal_strlit("3");
        reveal_strlit("4");
        reveal_strlit("5");
        reveal_strlit("6");
        reveal_strlit("7");
        reveal_strlit("8");
        reveal_strlit("9");
    }
    let r = if d == 0 {
        "0"
    } else if d == 1 {
        "1"
    } else if d == 2 {
        "2"
    } else if d == 3 {
        "3"
    } else if d == 4 {
        "4"
    } else if d == 5 {
        "5"
    } else if d == 6 {
        "6"
    } else if d == 7 {
        "7"
    } else if d == 8 {
        "8"
    } else {
        "9"
    };
    assert(r@ =~= seq![digit_char(d as int)]);
    r
}

fn append_digits(out: &mut String, n: u64)
    ensures
        final(out)@ == old(out)@ + nat_digits(n as nat),
    decreases n,
{
    if n >= 10 {
        append_digits(out, n / 10);
    }
    out.append(digit_str(n % 10));
    assert(old(out)@ + nat_digits(n as nat) =~= if n >= 10 {
        old(out)@ + nat_digits((n / 10) as nat) + seq![digit_char((n % 10) as int)]
    } else {
        old(out)@ + seq![digit_char((n % 10) as int)]
    });
}

/// `n` written in decimal.
pub fn format_i32(n: i32) -> (r: String)
    ensures
        r@ == decimal(n as int),
{
    let mut out = String::new();
    if n < 0 {
        out.append("-");
        proof {
            reveal_strlit("-");
            assert("-"@ =~= seq!['-']);
        }
        let m = (-(n as i64)) as u64;
        append_digits(&mut out, m);
    } else {
        append_digits(&mut out, n as u64);
    }
    out
}

/// The watermark text for a frame rate.
pub open spec fn watermark_text(fps: int) -> Seq<char> {
    "powered by rust @ "@ + decimal(fps) + "fps"@
}

impl Watermark {
    /// What the watermark draws for the current frame rate (frames per second, the
    /// whole part of one over the frame time): its text at (2, 2) with the shadowed
    /// font, in opaque white. Issuing the draw on the surface is the caller's part.
    pub fn paint_traverse(_event: &mut EventPaintTraverse, fps: i32) -> (r: TextDraw)
        ensures
            r.text@ == watermark_text(fps as int),
            r.x == 2,
            r.y == 2,
            r.font_type == FontType::Shadow,
            r.color == (Color { r: 255, g: 255, b: 255, a: 255 }),
    {
        let mut text = String::from_str("powered by rust @ ");
        let number = format_i32(fps);
        text.append(number.as_str());
        text.append("fps");
        TextDraw { text, x: 2, y: 2, font_type: FontType::Shadow, color: Color::new_rgb(255, 255, 255) }
    }
}

/// Whether an entity is one the aimbot and the ESP act on: a player who is alive,
/// is not the local player, and is on another team than the local player.
pub fn is_enemy(
    is_player: bool,
    is_alive: bool,
    entity_address: usize,
    local_address: usize,
    team: i32,
    local_team: i32,
) -> (r: bool)
    ensures
        r == (is_player && is_alive && entity_address != local_address && team != local_team),
{
    is_player && is_alive && entity_address != local_address && team != local_team
}

impl ESP {
    /// The number drawn above an enemy's health bar: the health in decimal, drawn
    /// only while the health is below 100.
    pub fn health_text(health: i32) -> (r: Option<String>)
        ensures
            health < 100 ==> (r matches Some(s) && s@ == decimal(health as int)),
            health >= 100 ==> r is None,
    {
        if health < 100 {
            Some(format_i32(health))
        } else {
            None
        }
    }
}

/// Where the third-person feature writes the player's view angles at a frame stage:
/// during render start, in game, for a live local player, at the player's base plus
/// the `DT_BasePlayer->deadflag` offset plus 4, unless that address is null.
pub open spec fn third_person_target(
    stage: Stage,
    in_game: bool,
    local: CEntity,
    netvars: Map<Seq<char>, usize>,
    mem: MemoryImage,
) -> Option<usize> {
    let health = read_i32_opt(
        mem,
        netvar_address(local.vtable, netvars, "DT_BasePlayer"@, "m_iHealth"@),
    );
    let addr = local.vtable + offset_of(netvars, joined_key("DT_BasePlayer"@, "deadflag"@)) + 4;
    if stage == Stage::FrameRenderStart && in_game && local.vtable != 0 && (health matches Some(h)
        && h > 0) && addr <= usize::MAX && addr != 0 {
        Some(addr as usize)
    } else {
        None
    }
}

impl ThirdPerson {
    /// At render start, the address where the local player's view angles are to be
    /// written so its model shows the angles the camera looks along; `None` when
    /// nothing is to be written (another stage, not in game, no local player, a dead
    /// or unreadable player, or an address that does not fit or is null).
    pub fn fns(
        event: &EventFrameStageNotify,
        in_game: bool,
        local_player: NotNull<CEntity>,
        netvars: &NetvarMap,
        mem: &MemoryImage,
    ) -> (r: Option<usize>)
        ensures
            r == third_person_target(event.stage, in_game, local_player.ptr, netvars@, *mem),
    {
        if event.stage != Stage::FrameRenderStart {
            return None;
        }
        if !in_game {
            return None;
        }
        let local = match local_player.get() {
            Some(local) => local,
            None => return None,
        };
        match local.is_alive(netvars, mem) {
            Some(true) => {},
            _ => return None,
        }
        let dead_flag = get_offset(netvars, "DT_BasePlayer", "deadflag");
        let addr = match value_address(local.vtable, dead_flag) {
            Some(a) => match value_address(a, 4) {
                Some(b) => b,
                None => return None,
            },
            None => return None,
        };
        if addr == 0 {
            return None;
        }
        Some(addr)
    }
}


/// The third-person feature writes only at render start and only while in game; what
/// it writes to is the local player's base plus the `deadflag` offset plus 4, never
/// the null address; and at render start, in game, for a live local player whose
/// target address fits and is not null, it does write there.
pub proof fn law_third_person_writes_only_at_render_start(
    stage: Stage,
    in_game: bool,
    local: CEntity,
    netvars: Map<Seq<char>, usize>,
    mem: MemoryImage,
)
    ensures
        stage != Stage::FrameRenderStart ==> third_person_target(stage, in_game, local, netvars, mem) is None,
        !in_game ==> third_person_target(stage, in_game, local, netvars, mem) is None,
        third_person_target(stage, in_game, local, netvars, mem) matches Some(a) ==> a != 0 && a == local.vtable
            + offset_of(netvars, joined_key("DT_BasePlayer"@, "deadflag"@)) + 4,
        ({
            let addr = local.vtable + offset_of(netvars, joined_key("DT_BasePlayer"@, "deadflag"@)) + 4;
            stage == Stage::FrameRenderStart && in_game && local.vtable != 0 && (read_i32_opt(
                mem,
                netvar_address(local.vtable, netvars, "DT_BasePlayer"@, "m_iHealth"@),
            ) matches Some(h) && h > 0) && addr <= usize::MAX && addr != 0 ==> third_person_target(
                stage,
                in_game,
                local,
                netvars,
                mem,
            ) == Some(addr as usize)
        }),
{
}

} // verus!
