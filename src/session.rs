//! The interactive session: the typed image path, the display palette, and
//! how key presses change them.
use vstd::prelude::*;
use crate::color::{
    Rgb, pastel_rgb, pastel_channel, lighter_channel, darker_channel, push_char, pop_char,
};
use crate::palette::{MAX_PIXEL_BYTES, ExtractError, extraction_of, palette_from_pixels, variations_of};

verus! {

/// A key event's code, as far as the session tells codes apart.
#[derive(Clone, Copy, Debug, PartialEq, Eq, Structural)]
pub enum Key {
    /// A printable character.
    Char(char),
    Backspace,
    /// Confirm: extract the palette of the typed path.
    Enter,
    /// Cancel: leave the session.
    Esc,
    /// Any other key, which is ignored.
    Other,
}

/// What the loop around the session does after an event.
#[derive(Clone, Copy, Debug, PartialEq, Eq, Structural)]
pub enum Action {
    /// Redraw and read the next event.
    Continue,
    /// Decode the image at the typed path and hand the result to
    /// `App::extract_colors`.
    Extract,
    /// Leave the loop.
    Quit,
}

/// The typed path after an event.
pub open spec fn next_path(path: Seq<char>, key: Key, pressed: bool) -> Seq<char> {
    if !pressed {
        path
    } else {
        match key {
            Key::Char(c) => path.push(c),
            Key::Backspace => if path.len() == 0 { path } else { path.drop_last() },
            _ => path,
        }
    }
}

/// The action that follows an event.
pub open spec fn action_of(key: Key, pressed: bool) -> Action {
    if !pressed {
        Action::Continue
    } else {
        match key {
            Key::Enter => Action::Extract,
            Key::Esc => Action::Quit,
            _ => Action::Continue,
        }
    }
}

/// The session state: the path typed so far and the colors on display.
pub struct App {
    pub image_path: String,
    pub colors: Vec<Rgb>,
}

impl App {
    /// The display palette is empty or holds exactly five colors.
    pub open spec fn wf(&self) -> bool {
        self.colors@.len() == 0 || self.colors@.len() == 5
    }

    pub fn new() -> (r: Self)
        ensures
            r.image_path@.len() == 0,
            r.colors@.len() == 0,
            r.wf(),
    {
        App { image_path: String::new(), colors: Vec::new() }
    }

    /// Each channel blended 70% toward itself and 30% toward white.
    pub fn to_pastel(r: u8, g: u8, b: u8) -> (res: Rgb)
        ensures
            res == pastel_rgb((r, g, b)),
    {
        (pastel_channel(r), pastel_channel(g), pastel_channel(b))
    }

    /// The color itself, a lighter tone (channels scaled by 1.2, clamped at
    /// 255) and a darker one (channels scaled by 0.8, truncated).
    pub fn get_color_variations(r: u8, g: u8, b: u8) -> (res: Vec<Rgb>)
        ensures
            res@ == variations_of((r, g, b)),
            res@[1].0 >= r && res@[1].1 >= g && res@[1].2 >= b,
            res@[2].0 <= r && res@[2].1 <= g && res@[2].2 <= b,
    {
        let mut variations: Vec<Rgb> = Vec::new();
        variations.push((r, g, b));
        let lighter = (lighter_channel(r), lighter_channel(g), lighter_channel(b));
        variations.push(lighter);
        let darker = (darker_channel(r), darker_channel(g), darker_channel(b));
        variations.push(darker);
        assert(variations@ =~= variations_of((r, g, b)));
        variations
    }

    /// Applies one key event. Release events and unknown keys change
    /// nothing; a character is appended; backspace removes the last
    /// character, if any; enter asks for an extraction and escape for the
    /// end of the session.
    pub fn handle_key(&mut self, key: Key, pressed: bool) -> (a: Action)
        ensures
            final(self).image_path@ == next_path(old(self).image_path@, key, pressed),
            final(self).colors@ == old(self).colors@,
            a == action_of(key, pressed),
    {
        if !pressed {
            return Action::Continue;
        }
        match key {
            Key::Char(c) => {
                push_char(&mut self.image_path, c);
                Action::Continue
            },
            Key::Backspace => {
                let _ = pop_char(&mut self.image_path);
                Action::Continue
            },
            Key::Enter => Action::Extract,
            Key::Esc => Action::Quit,
            Key::Other => Action::Continue,
        }
    }

    /// Finishes a confirmed extraction with the decoded RGB pixels of the
    /// typed path, or `None` where it could not be decoded. On success the
    /// display palette is replaced whole; on failure it is left as it was
    /// and the error is returned. Decoded buffers hold at most
    /// `MAX_PIXEL_BYTES` bytes.
    pub fn extract_colors(&mut self, decoded: Option<&[u8]>) -> (r: Result<(), ExtractError>)
        requires
            old(self).wf(),
            decoded matches Some(pixels) ==> pixels@.len() <= MAX_PIXEL_BYTES,
        ensures
            final(self).wf(),
            final(self).image_path@ == old(self).image_path@,
            match decoded {
                None => r == Err::<(), ExtractError>(ExtractError::Decode)
                    && final(self).colors@ == old(self).colors@,
                Some(pixels) => match extraction_of(pixels@) {
                    Ok(d) => r is Ok && final(self).colors@ == d,
                    Err(e) => r == Err::<(), ExtractError>(e)
                        && final(self).colors@ == old(self).colors@,
                },
            },
    {
        match decoded {
            None => Err(ExtractError::Decode),
            Some(pixels) => match palette_from_pixels(pixels) {
                Ok(colors) => {
                    self.colors = colors;
                    Ok(())
                },
                Err(e) => Err(e),
            },
        }
    }
}

} // verus!
