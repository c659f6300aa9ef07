use vstd::prelude::*;

verus! {

/// The script up to the value of the pause flag. Run in the page, the whole
/// script records the flag, pauses every video and audio element when it is
/// set, and installs (once per page) an observer that pauses media added
/// later and a listener that pauses media that starts playing while the flag
/// is set. It never starts playback.
pub const MEDIA_SCRIPT_HEAD: &'static str = r#"(() => {
  const state = window.__tiktokLiteMediaState ||= { paused: false };
  state.paused = "#;

/// The script after the value of the pause flag.
pub const MEDIA_SCRIPT_TAIL: &'static str = r#";
  const pauseMedia = (root) => {
    if (!state.paused) return;
    root.querySelectorAll?.('video, audio').forEach((media) => media.pause());
    if (root.matches?.('video, audio')) root.pause();
  };
  if (!window.__tiktokLiteMediaObserver) {
    window.__tiktokLiteMediaObserver = new MutationObserver((mutations) => {
      mutations.forEach((mutation) => mutation.addedNodes.forEach(pauseMedia));
    });
    window.__tiktokLiteMediaObserver.observe(document.documentElement, { childList: true, subtree: true });
  }
  if (!window.__tiktokLiteMediaPlayListener) {
    window.__tiktokLiteMediaPlayListener = (event) => {
      if (state.paused && event.target.matches?.('video, audio')) event.target.pause();
    };
    document.addEventListener('play', window.__tiktokLiteMediaPlayListener, true);
  }
  pauseMedia(document);
})();"#;

/// `true` or `false`, as JavaScript writes it.
pub open spec fn js_bool(b: bool) -> Seq<char> {
    if b {
        "true"@
    } else {
        "false"@
    }
}

/// The page script with the pause flag set to `paused`.
pub open spec fn spec_media_control_script(paused: bool) -> Seq<char> {
    MEDIA_SCRIPT_HEAD@ + js_bool(paused) + MEDIA_SCRIPT_TAIL@
}

/// The script that the shell runs in the page to pause media, or to stop
/// pausing it, without ever starting playback itself.
pub fn media_control_script(paused: bool) -> (res: String)
    ensures
        res@ == spec_media_control_script(paused),
{
    let mut script = String::from_str(MEDIA_SCRIPT_HEAD);
    if paused {
        script.append("true");
    } else {
        script.append("false");
    }
    script.append(MEDIA_SCRIPT_TAIL);
    script
}

/// `needle` occurs somewhere in `text`.
pub open spec fn occurs_in(needle: Seq<char>, text: Seq<char>) -> bool {
    exists|i: int|
        0 <= i <= text.len() - needle.len() && #[trigger] text.subrange(i, i + needle.len())
            == needle
}

/// No `y` in `text` is followed by `(`.
spec fn no_call_after_y(text: Seq<char>) -> bool {
    forall|j: int| 0 <= j < text.len() - 1 ==> !(#[trigger] text[j] == 'y' && text[j + 1] == '(')
}

proof fn lemma_script_parts_have_no_call_after_y()
    ensures
        no_call_after_y(MEDIA_SCRIPT_HEAD@),
        no_call_after_y(MEDIA_SCRIPT_TAIL@),
        MEDIA_SCRIPT_HEAD@.len() > 0 && MEDIA_SCRIPT_HEAD@.last() != 'y',
        MEDIA_SCRIPT_TAIL@.len() > 0 && MEDIA_SCRIPT_TAIL@[0] != '(',
{
    reveal_strlit(r#"(() => {
  const state = window.__tiktokLiteMediaState ||= { paused: false };
  state.paused = "#);
    reveal_strlit(r#";
  const pauseMedia = (root) => {
    if (!state.paused) return;
    root.querySelectorAll?.('video, audio').forEach((media) => media.pause());
    if (root.matches?.('video, audio')) root.pause();
  };
  if (!window.__tiktokLiteMediaObserver) {
    window.__tiktokLiteMediaObserver = new MutationObserver((mutations) => {
      mutations.forEach((mutation) => mutation.addedNodes.forEach(pauseMedia));
    });
    window.__tiktokLiteMediaObserver.observe(document.documentElement, { childList: true, subtree: true });
  }
  if (!window.__tiktokLiteMediaPlayListener) {
    window.__tiktokLiteMediaPlayListener = (event) => {
      if (state.paused && event.target.matches?.('video, audio')) event.target.pause();
    };
    document.addEventListener('play', window.__tiktokLiteMediaPlayListener, true);
  }
  pauseMedia(document);
})();"#);
}

/// The script never starts playback: `media.play()` occurs in it for
/// neither value of the pause flag.
pub proof fn media_script_never_plays(paused: bool)
    ensures
        !occurs_in("media.play()"@, spec_media_control_script(paused)),
{
    lemma_script_parts_have_no_call_after_y();
    reveal_strlit("media.play()");
    reveal_strlit("true");
    reveal_strlit("false");
    let h = MEDIA_SCRIPT_HEAD@;
    let b = js_bool(paused);
    let t = MEDIA_SCRIPT_TAIL@;
    let s = spec_media_control_script(paused);
    let needle = "media.play()"@;
    assert(s == h + b + t);
    assert forall|j: int| 0 <= j < s.len() - 1 implies !(#[trigger] s[j] == 'y' && s[j + 1]
        == '(') by {
        if j < h.len() - 1 {
            assert(s[j] == h[j] && s[j + 1] == h[j + 1]);
        } else if j == h.len() - 1 {
            assert(s[j] == h.last());
        } else if j < h.len() + b.len() - 1 {
            assert(s[j] == b[j - h.len()]);
        } else if j == h.len() + b.len() - 1 {
            assert(s[j + 1] == t[0]);
        } else {
            assert(s[j] == t[j - h.len() - b.len()]);
            assert(s[j + 1] == t[j + 1 - h.len() - b.len()]);
        }
    }
    if occurs_in(needle, s) {
        let i = choose|i: int|
            0 <= i <= s.len() - needle.len() && #[trigger] s.subrange(i, i + needle.len())
                == needle;
        assert(s.subrange(i, i + needle.len())[9] == needle[9]);
        assert(s.subrange(i, i + needle.len())[10] == needle[10]);
        assert(s[i + 9] == 'y' && s[i + 10] == '(');
    }
}

} // verus!
