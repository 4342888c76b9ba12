use vstd::prelude::*;

verus! {

/// The headset family the client runs on.
#[derive(PartialEq, Eq, Structural, Debug, Clone, Copy)]
pub enum Platform {
    Quest1,
    Quest2,
    Quest3,
    QuestPro,
    QuestUnknown,
    PicoNeo3,
    Pico4,
    Focus3,
    XRElite,
    ViveUnknown,
    Yvr,
    Lynx,
    Unknown,
}

/// The suffix of the native loader library for `p`.
pub open spec fn loader_suffix_of(p: Platform) -> Seq<char> {
    match p {
        Platform::Quest1 | Platform::Quest2 | Platform::Quest3 | Platform::QuestPro
        | Platform::QuestUnknown => "quest"@,
        Platform::PicoNeo3 | Platform::Pico4 => "pico"@,
        Platform::Yvr => "yvr"@,
        Platform::Lynx => "lynx"@,
        _ => "generic"@,
    }
}

/// Picks the native loader library suffix for a platform family; the library is
/// then loaded as `loader_<suffix>`.
pub fn loader_suffix(p: Platform) -> (r: &'static str)
    ensures
        r@ == loader_suffix_of(p),
{
    match p {
        Platform::Quest1 | Platform::Quest2 | Platform::Quest3 | Platform::QuestPro
        | Platform::QuestUnknown => "quest",
        Platform::PicoNeo3 | Platform::Pico4 => "pico",
        Platform::Yvr => "yvr",
        Platform::Lynx => "lynx",
        _ => "generic",
    }
}

/// The platforms that cannot reinitialize a session in place, as shipped; the
/// negotiator takes the table as an argument so that it can grow.
pub fn default_no_reinit_platforms() -> (r: Vec<Platform>)
    ensures
        r@ == seq![Platform::Focus3, Platform::XRElite, Platform::ViveUnknown],
{
    vec![Platform::Focus3, Platform::XRElite, Platform::ViveUnknown]
}

/// Whether `p` is in `table`.
pub fn platform_listed(table: &Vec<Platform>, p: Platform) -> (r: bool)
    ensures
        r == table@.contains(p),
{
    let mut i: usize = 0;
    while i < table.len()
        invariant
            i <= table@.len(),
            forall|k: int| 0 <= k < i ==> table@[k] != p,
        decreases table@.len() - i,
    {
        if table[i] == p {
            return true;
        }
        i = i + 1;
    }
    false
}

} // verus!
