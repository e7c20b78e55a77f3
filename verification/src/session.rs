//! The edit session: the playback mode, the template position, the last
//! evaluated snapshot, and the per-tick decision of what to play.

use vstd::prelude::*;
use vstd::string::*;
use crate::mml::{contains_notes, diff_spec, MmlProcessor};
use crate::template::{
    clamped_index, next_template_index, template_count_spec, template_spec, title_spec,
    MmlTemplate,
};

verus! {

/// Which part of the text a content change sends to playback.
#[derive(Debug, Clone, Copy, PartialEq, Eq, Structural)]
pub enum PlaybackMode {
    /// Play only the newly typed delta (the default).
    CurrentNote,
    /// Play the whole MML text on every change.
    FullMml,
}

/// The mode reached from `m` by one toggle.
pub open spec fn toggled(m: PlaybackMode) -> PlaybackMode {
    match m {
        PlaybackMode::CurrentNote => PlaybackMode::FullMml,
        PlaybackMode::FullMml => PlaybackMode::CurrentNote,
    }
}

/// Toggling the playback mode twice restores the original mode.
pub proof fn lemma_toggle_involution(m: PlaybackMode)
    ensures
        toggled(toggled(m)) == m,
{
}

/// A character with the Unicode `White_Space` property, as `str::trim`
/// removes it.
pub open spec fn is_ws_char(c: char) -> bool {
    ||| c == '\t' || c == '\n' || c == '\u{000B}' || c == '\u{000C}' || c == '\r' || c == ' '
    ||| c == '\u{0085}' || c == '\u{00A0}' || c == '\u{1680}'
    ||| c == '\u{2000}' || c == '\u{2001}' || c == '\u{2002}' || c == '\u{2003}'
    ||| c == '\u{2004}' || c == '\u{2005}' || c == '\u{2006}' || c == '\u{2007}'
    ||| c == '\u{2008}' || c == '\u{2009}' || c == '\u{200A}'
    ||| c == '\u{2028}' || c == '\u{2029}' || c == '\u{202F}' || c == '\u{205F}'
    ||| c == '\u{3000}'
}

/// Text that trims to nothing: every character is whitespace (vacuously, the
/// empty text).
pub open spec fn trimmed_empty(s: Seq<char>) -> bool {
    forall|i: int| 0 <= i < s.len() ==> is_ws_char(s[i])
}

/// Whether `s` trims to the empty string.
fn is_blank(s: &str) -> (r: bool)
    ensures
        r == trimmed_empty(s@),
{
    let n: usize = s.unicode_len();
    let mut i: usize = 0;
    while i < n
        invariant
            n == s@.len(),
            i <= n,
            forall|j: int| 0 <= j < i ==> is_ws_char(s@[j]),
        decreases n - i,
    {
        let c = s.get_char(i);
        if !(c == '\t' || c == '\n' || c == '\u{000B}' || c == '\u{000C}' || c == '\r'
            || c == ' ' || c == '\u{0085}' || c == '\u{00A0}' || c == '\u{1680}'
            || c == '\u{2000}' || c == '\u{2001}' || c == '\u{2002}' || c == '\u{2003}'
            || c == '\u{2004}' || c == '\u{2005}' || c == '\u{2006}' || c == '\u{2007}'
            || c == '\u{2008}' || c == '\u{2009}' || c == '\u{200A}' || c == '\u{2028}'
            || c == '\u{2029}' || c == '\u{202F}' || c == '\u{205F}' || c == '\u{3000}') {
            return false;
        }
        i += 1;
    }
    true
}

/// The candidate text a tick considers for playback: the diff-derived delta
/// in `CurrentNote` mode, the whole current text in `FullMml` mode.
pub open spec fn candidate_spec(
    mode: PlaybackMode,
    previous: Seq<char>,
    current: Seq<char>,
) -> Seq<char> {
    match mode {
        PlaybackMode::CurrentNote => diff_spec(previous, current),
        PlaybackMode::FullMml => current,
    }
}

/// A tick emits a playback request exactly when its candidate is non-blank
/// and contains at least one note letter.
pub open spec fn should_play(candidate: Seq<char>) -> bool {
    !trimmed_empty(candidate) && contains_notes(candidate)
}

/// Display name of a playback mode.
pub open spec fn mode_name_spec(m: PlaybackMode) -> Seq<char> {
    match m {
        PlaybackMode::CurrentNote => "現在の音のみ"@,
        PlaybackMode::FullMml => "MML全体"@,
    }
}

/// The window title for a template position and playback mode.
pub open spec fn title_line_spec(template_index: int, mode: PlaybackMode) -> Seq<char> {
    "MML Editor - "@ + title_spec(template_index) + " - 再生モード: "@ + mode_name_spec(mode)
        + " - ESC:終了 F2:テンプレート切替 Ctrl+P:再生モード切替"@
}

/// The orchestrating state machine of the editor: remembers the most
/// recently evaluated snapshot, the current template position and the
/// playback mode, and decides per tick what to send to playback.
pub struct EditSession {
    /// The last snapshot already evaluated for playback.
    pub previous_content: String,
    /// Current position in the template catalog.
    pub template_index: usize,
    /// Which part of the text a change sends to playback.
    pub playback_mode: PlaybackMode,
}

impl EditSession {
    /// Well-formed: the template position is in catalog range.
    pub open spec fn wf(self) -> bool {
        self.template_index < template_count_spec()
    }

    /// A fresh session: empty previous snapshot, first template, delta mode.
    pub fn new() -> (s: EditSession)
        ensures
            s.wf(),
            s.previous_content@ == Seq::<char>::empty(),
            s.template_index == 0,
            s.playback_mode == PlaybackMode::CurrentNote,
    {
        EditSession {
            previous_content: String::new(),
            template_index: 0,
            playback_mode: PlaybackMode::CurrentNote,
        }
    }

    /// One tick: given the current full text, decide what (if anything) to
    /// play, and remember the text as the new previous snapshot. With no
    /// change since the last tick nothing is played and nothing is updated;
    /// otherwise the mode selects the candidate, and a request is returned
    /// exactly when the candidate is non-blank and note-bearing.
    pub fn observe_content(&mut self, current: &str) -> (r: Option<String>)
        ensures
            final(self).template_index == old(self).template_index,
            final(self).playback_mode == old(self).playback_mode,
            old(self).previous_content@ == current@ ==> r is None
                && final(self).previous_content@ == old(self).previous_content@,
            old(self).previous_content@ != current@ ==> {
                let candidate = candidate_spec(
                    old(self).playback_mode,
                    old(self).previous_content@,
                    current@,
                );
                &&& final(self).previous_content@ == current@
                &&& should_play(candidate) ==> (r matches Some(c) && c@ == candidate)
                &&& !should_play(candidate) ==> r is None
            },
    {
        let cur = current.to_owned();
        if self.previous_content == cur {
            return None;
        }
        let candidate: String = match self.playback_mode {
            PlaybackMode::CurrentNote => MmlProcessor::calculate_diff(
                self.previous_content.as_str(),
                current,
            ),
            PlaybackMode::FullMml => current.to_owned(),
        };
        self.previous_content = cur;
        if !is_blank(candidate.as_str()) && MmlProcessor::contains_mml_notes(candidate.as_str()) {
            Some(candidate)
        } else {
            None
        }
    }

    /// Advance to the next template, cyclically, and return its content for
    /// the caller to install as the new editable text.
    pub fn apply_next_template(&mut self) -> (t: &'static str)
        requires
            old(self).wf(),
        ensures
            final(self).wf(),
            final(self).template_index == next_template_index(old(self).template_index as int),
            final(self).playback_mode == old(self).playback_mode,
            final(self).previous_content@ == old(self).previous_content@,
            t@ == template_spec(final(self).template_index as int),
    {
        let count = MmlTemplate::template_count();
        self.template_index = (self.template_index + 1) % count;
        let t = MmlTemplate::get_template(self.template_index);
        proof {
            assert(clamped_index(self.template_index as int) == self.template_index as int);
        }
        t
    }

    /// Flip the playback mode and return the new mode.
    pub fn toggle_playback_mode(&mut self) -> (m: PlaybackMode)
        ensures
            final(self).playback_mode == toggled(old(self).playback_mode),
            m == final(self).playback_mode,
            final(self).template_index == old(self).template_index,
            final(self).previous_content@ == old(self).previous_content@,
    {
        self.playback_mode = match self.playback_mode {
            PlaybackMode::CurrentNote => PlaybackMode::FullMml,
            PlaybackMode::FullMml => PlaybackMode::CurrentNote,
        };
        self.playback_mode
    }

    /// The window title announcing the current template and playback mode.
    pub fn format_title(template_index: usize, playback_mode: PlaybackMode) -> (r: String)
        requires
            template_index < usize::MAX,
        ensures
            r@ == title_line_spec(template_index as int, playback_mode),
    {
        let mut s = "MML Editor - ".to_owned();
        let t = MmlTemplate::get_template_title(template_index);
        s.append(t.as_str());
        s.append(" - 再生モード: ");
        let mode_str: &'static str = match playback_mode {
            PlaybackMode::CurrentNote => "現在の音のみ",
            PlaybackMode::FullMml => "MML全体",
        };
        s.append(mode_str);
        s.append(" - ESC:終了 F2:テンプレート切替 Ctrl+P:再生モード切替");
        s
    }
}

} // verus!
