//! The in-game overlay: a subtitle line at the bottom of the screen and a
//! body icon mirroring the player's size.  The layout is drawn outside the
//! library; here are the overlay's component markers and what the subtitle
//! shows.

use vstd::prelude::*;
use vstd::string::StringExecFns;

verus! {

/// The root node of the overlay.
#[derive(Debug, Clone, Copy, PartialEq, Eq, Structural)]
pub struct Hud;

/// The icon that mirrors the player body's scale.
#[derive(Debug, Clone, Copy, PartialEq, Eq, Structural)]
pub struct BodyIcon;

/// The subtitle text node.
#[derive(Debug, Clone, Copy, PartialEq, Eq, Structural)]
pub struct Subtitle;

/// An event asking the subtitle to show this text.
#[derive(Debug)]
pub struct SubtitleTrigger(pub String);

/// The text the subtitle shows after a batch of events: each event
/// overwrites the text, so the last one wins; without events the text
/// stays.
pub fn update_subtitle(events: &Vec<SubtitleTrigger>) -> (r: Option<String>)
    ensures
        r is Some <==> events@.len() > 0,
        (match r {
            Some(s) => s == events@.last().0,
            None => true,
        }),
{
    if events.len() == 0 {
        return None;
    }
    Some(events[events.len() - 1].0.clone())
}

/// The debug subtitle keys: one key shows a fixed test line, the other
/// clears the text; pressed together, the test line is sent first and the
/// clear wins.
pub fn test_subtitle(test_key: bool, clear_key: bool) -> (r: Vec<SubtitleTrigger>)
    ensures
        r@.map_values(|st: SubtitleTrigger| st.0@) == (if test_key {
            seq!["TEST"@]
        } else {
            Seq::<Seq<char>>::empty()
        }) + (if clear_key {
            seq![""@]
        } else {
            Seq::<Seq<char>>::empty()
        }),
{
    let mut r: Vec<SubtitleTrigger> = Vec::new();
    if test_key {
        r.push(SubtitleTrigger(String::from_str("TEST")));
    }
    if clear_key {
        r.push(SubtitleTrigger(String::from_str("")));
    }
    proof {
        assert(r@.map_values(|st: SubtitleTrigger| st.0@) =~~= (if test_key {
            seq!["TEST"@]
        } else {
            Seq::<Seq<char>>::empty()
        }) + (if clear_key {
            seq![""@]
        } else {
            Seq::<Seq<char>>::empty()
        }));
    }
    r
}

} // verus!
