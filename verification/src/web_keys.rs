use vstd::prelude::*;
use crate::event::Key;

verus! {

/// Whether the strings `a` and `b` hold the same characters.
pub fn str_eq(a: &str, b: &str) -> (r: bool)
    ensures
        r == (a@ == b@),
{
    let n = a.unicode_len();
    if n != b.unicode_len() {
        return false;
    }
    let mut i: usize = 0;
    while i < n
        invariant
            n == a@.len(),
            n == b@.len(),
            i <= n,
            forall|k: int| 0 <= k < i ==> a@[k] == b@[k],
        decreases n - i,
    {
        if a.get_char(i) != b.get_char(i) {
            return false;
        }
        i = i + 1;
    }
    assert(a@ =~= b@);
    true
}

/// The key a browser names `s` in a keyboard event's `key` field: digits,
/// letters in either case, function, editing and navigation keys, and the
/// punctuation and media keys by their names. Any other name is `Unknown`.
pub open spec fn web_key(s: Seq<char>) -> Key {
    if s == "1"@ {
        Key::Key1
    } else if s == "2"@ {
        Key::Key2
    } else if s == "3"@ {
        Key::Key3
    } else if s == "4"@ {
        Key::Key4
    } else if s == "5"@ {
        Key::Key5
    } else if s == "6"@ {
        Key::Key6
    } else if s == "7"@ {
        Key::Key7
    } else if s == "8"@ {
        Key::Key8
    } else if s == "9"@ {
        Key::Key9
    } else if s == "0"@ {
        Key::Key0
    } else if s == "A"@ || s == "a"@ {
        Key::A
    } else if s == "B"@ || s == "b"@ {
        Key::B
    } else if s == "C"@ || s == "c"@ {
        Key::C
    } else if s == "D"@ || s == "d"@ {
        Key::D
    } else if s == "E"@ || s == "e"@ {
        Key::E
    } else if s == "F"@ || s == "f"@ {
        Key::F
    } else if s == "G"@ || s == "g"@ {
        Key::G
    } else if s == "H"@ || s == "h"@ {
        Key::H
    } else if s == "I"@ || s == "i"@ {
        Key::I
    } else if s == "J"@ || s == "j"@ {
        Key::J
    } else if s == "K"@ || s == "k"@ {
        Key::K
    } else if s == "L"@ || s == "l"@ {
        Key::L
    } else if s == "M"@ || s == "m"@ {
        Key::M
    } else if s == "N"@ || s == "n"@ {
        Key::N
    } else if s == "O"@ || s == "o"@ {
        Key::O
    } else if s == "P"@ || s == "p"@ {
        Key::P
    } else if s == "Q"@ || s == "q"@ {
        Key::Q
    } else if s == "R"@ || s == "r"@ {
        Key::R
    } else if s == "S"@ || s == "s"@ {
        Key::S
    } else if s == "T"@ || s == "t"@ {
        Key::T
    } else if s == "U"@ || s == "u"@ {
        Key::U
    } else if s == "V"@ || s == "v"@ {
        Key::V
    } else if s == "W"@ || s == "w"@ {
        Key::W
    } else if s == "X"@ || s == "x"@ {
        Key::X
    } else if s == "Y"@ || s == "y"@ {
        Key::Y
    } else if s == "Z"@ || s == "z"@ {
        Key::Z
    } else if s == "Escape"@ {
        Key::Escape
    } else if s == "F1"@ {
        Key::F1
    } else if s == "F2"@ {
        Key::F2
    } else if s == "F3"@ {
        Key::F3
    } else if s == "F4"@ {
        Key::F4
    } else if s == "F5"@ {
        Key::F5
    } else if s == "F6"@ {
        Key::F6
    } else if s == "F7"@ {
        Key::F7
    } else if s == "F8"@ {
        Key::F8
    } else if s == "F9"@ {
        Key::F9
    } else if s == "F10"@ {
        Key::F10
    } else if s == "F11"@ {
        Key::F11
    } else if s == "F12"@ {
        Key::F12
    } else if s == "F13"@ {
        Key::F13
    } else if s == "F14"@ {
        Key::F14
    } else if s == "F15"@ {
        Key::F15
    } else if s == "F16"@ {
        Key::F16
    } else if s == "F17"@ {
        Key::F17
    } else if s == "F18"@ {
        Key::F18
    } else if s == "F19"@ {
        Key::F19
    } else if s == "F20"@ {
        Key::F20
    } else if s == "F21"@ {
        Key::F21
    } else if s == "F22"@ {
        Key::F22
    } else if s == "F23"@ {
        Key::F23
    } else if s == "F24"@ {
        Key::F24
    } else if s == "Snapshot"@ {
        Key::Snapshot
    } else if s == "Scroll"@ {
        Key::Scroll
    } else if s == "Pause"@ {
        Key::Pause
    } else if s == "Insert"@ {
        Key::Insert
    } else if s == "Home"@ {
        Key::Home
    } else if s == "Delete"@ {
        Key::Delete
    } else if s == "End"@ {
        Key::End
    } else if s == "PageDown"@ {
        Key::PageDown
    } else if s == "PageUp"@ {
        Key::PageUp
    } else if s == "ArrowLeft"@ {
        Key::Left
    } else if s == "ArrowUp"@ {
        Key::Up
    } else if s == "ArrowRight"@ {
        Key::Right
    } else if s == "ArrowDown"@ {
        Key::Down
    } else if s == "Back"@ {
        Key::Back
    } else if s == "Return"@ {
        Key::Return
    } else if s == " "@ {
        Key::Space
    } else if s == "Compose"@ {
        Key::Compose
    } else if s == "Caret"@ {
        Key::Caret
    } else if s == "Numlock"@ {
        Key::Numlock
    } else if s == "Numpad0"@ {
        Key::Numpad0
    } else if s == "Numpad1"@ {
        Key::Numpad1
    } else if s == "Numpad2"@ {
        Key::Numpad2
    } else if s == "Numpad3"@ {
        Key::Numpad3
    } else if s == "Numpad4"@ {
        Key::Numpad4
    } else if s == "Numpad5"@ {
        Key::Numpad5
    } else if s == "Numpad6"@ {
        Key::Numpad6
    } else if s == "Numpad7"@ {
        Key::Numpad7
    } else if s == "Numpad8"@ {
        Key::Numpad8
    } else if s == "Numpad9"@ {
        Key::Numpad9
    } else if s == "AbntC1"@ {
        Key::AbntC1
    } else if s == "AbntC2"@ {
        Key::AbntC2
    } else if s == "+"@ {
        Key::Add
    } else if s == "'"@ {
        Key::Apostrophe
    } else if s == "Apps"@ {
        Key::Apps
    } else if s == "At"@ {
        Key::At
    } else if s == "Ax"@ {
        Key::Ax
    } else if s == "\\"@ {
        Key::Backslash
    } else if s == "Calculator"@ {
        Key::Calculator
    } else if s == "Capital"@ {
        Key::Capital
    } else if s == ":"@ {
        Key::Colon
    } else if s == ","@ {
        Key::Comma
    } else if s == "Convert"@ {
        Key::Convert
    } else if s == "Decimal"@ {
        Key::Decimal
    } else if s == "="@ {
        Key::Equals
    } else if s == "Grave"@ {
        Key::Grave
    } else if s == "Kana"@ {
        Key::Kana
    } else if s == "Kanji"@ {
        Key::Kanji
    } else if s == "LAlt"@ {
        Key::LAlt
    } else if s == "{"@ {
        Key::LBracket
    } else if s == "LControl"@ {
        Key::LControl
    } else if s == "LShift"@ {
        Key::LShift
    } else if s == "LWin"@ {
        Key::LWin
    } else if s == "Mail"@ {
        Key::Mail
    } else if s == "MediaSelect"@ {
        Key::MediaSelect
    } else if s == "MediaStop"@ {
        Key::MediaStop
    } else if s == "-"@ {
        Key::Minus
    } else if s == "*"@ {
        Key::Multiply
    } else if s == "Mute"@ {
        Key::Mute
    } else if s == "MyComputer"@ {
        Key::MyComputer
    } else if s == "NavigateForward"@ {
        Key::NavigateForward
    } else if s == "NavigateBackward"@ {
        Key::NavigateBackward
    } else if s == "NextTrack"@ {
        Key::NextTrack
    } else if s == "NoConvert"@ {
        Key::NoConvert
    } else if s == "NumpadComma"@ {
        Key::NumpadComma
    } else if s == "NumpadEnter"@ {
        Key::NumpadEnter
    } else if s == "NumpadEquals"@ {
        Key::NumpadEquals
    } else if s == "OEM102"@ {
        Key::OEM102
    } else if s == "."@ {
        Key::Period
    } else if s == "PlayPause"@ {
        Key::PlayPause
    } else if s == "Power"@ {
        Key::Power
    } else if s == "PrevTrack"@ {
        Key::PrevTrack
    } else if s == "RAlt"@ {
        Key::RAlt
    } else if s == "}"@ {
        Key::RBracket
    } else if s == "RControl"@ {
        Key::RControl
    } else if s == "RShift"@ {
        Key::RShift
    } else if s == "RWin"@ {
        Key::RWin
    } else if s == ";"@ {
        Key::Semicolon
    } else if s == "/"@ {
        Key::Slash
    } else if s == "Sleep"@ {
        Key::Sleep
    } else if s == "Stop"@ {
        Key::Stop
    } else if s == "Sysrq"@ {
        Key::Sysrq
    } else if s == "Tab"@ {
        Key::Tab
    } else if s == "_"@ {
        Key::Underline
    } else if s == "Unlabeled"@ {
        Key::Unlabeled
    } else if s == "VolumeDown"@ {
        Key::VolumeDown
    } else if s == "VolumeUp"@ {
        Key::VolumeUp
    } else if s == "Wake"@ {
        Key::Wake
    } else if s == "WebBack"@ {
        Key::WebBack
    } else if s == "WebFavorites"@ {
        Key::WebFavorites
    } else if s == "WebForward"@ {
        Key::WebForward
    } else if s == "WebHome"@ {
        Key::WebHome
    } else if s == "WebRefresh"@ {
        Key::WebRefresh
    } else if s == "WebSearch"@ {
        Key::WebSearch
    } else if s == "WebStop"@ {
        Key::WebStop
    } else if s == "Yen"@ {
        Key::Yen
    } else if s == "Copy"@ {
        Key::Copy
    } else if s == "Paste"@ {
        Key::Paste
    } else if s == "Cut"@ {
        Key::Cut
    } else {
        Key::Unknown
    }
}

/// The browser's up arrow is the up key.
pub proof fn lemma_web_arrow_up()
    ensures
        web_key("ArrowUp"@) == Key::Up,
{
    assert("ArrowUp"@ != "1"@) by {
        reveal_strlit("ArrowUp"); reveal_strlit("1"); assert("ArrowUp"@.len() == 7 && "1"@.len() == 1);
    }
    assert("ArrowUp"@ != "2"@) by {
        reveal_strlit("ArrowUp"); reveal_strlit("2"); assert("ArrowUp"@.len() == 7 && "2"@.len() == 1);
    }
    assert("ArrowUp"@ != "3"@) by {
        reveal_strlit("ArrowUp"); reveal_strlit("3"); assert("ArrowUp"@.len() == 7 && "3"@.len() == 1);
    }
    assert("ArrowUp"@ != "4"@) by {
        reveal_strlit("ArrowUp"); reveal_strlit("4"); assert("ArrowUp"@.len() == 7 && "4"@.len() == 1);
    }
    assert("ArrowUp"@ != "5"@) by {
        reveal_strlit("ArrowUp"); reveal_strlit("5"); assert("ArrowUp"@.len() == 7 && "5"@.len() == 1);
    }
    assert("ArrowUp"@ != "6"@) by {
        reveal_strlit("ArrowUp"); reveal_strlit("6"); assert("ArrowUp"@.len() == 7 && "6"@.len() == 1);
    }
    assert("ArrowUp"@ != "7"@) by {
        reveal_strlit("ArrowUp"); reveal_strlit("7"); assert("ArrowUp"@.len() == 7 && "7"@.len() == 1);
    }
    assert("ArrowUp"@ != "8"@) by {
        reveal_strlit("ArrowUp"); reveal_strlit("8"); assert("ArrowUp"@.len() == 7 && "8"@.len() == 1);
    }
    assert("ArrowUp"@ != "9"@) by {
        reveal_strlit("ArrowUp"); reveal_strlit("9"); assert("ArrowUp"@.len() == 7 && "9"@.len() == 1);
    }
    assert("ArrowUp"@ != "0"@) by {
        reveal_strlit("ArrowUp"); reveal_strlit("0"); assert("ArrowUp"@.len() == 7 && "0"@.len() == 1);
    }
    assert("ArrowUp"@ != "A"@) by {
        reveal_strlit("ArrowUp"); reveal_strlit("A"); assert("ArrowUp"@.len() == 7 && "A"@.len() == 1);
    }
    assert("ArrowUp"@ != "a"@) by {
        reveal_strlit("ArrowUp"); reveal_strlit("a"); assert("ArrowUp"@.len() == 7 && "a"@.len() == 1);
    }
    assert("ArrowUp"@ != "B"@) by {
        reveal_strlit("ArrowUp"); reveal_strlit("B"); assert("ArrowUp"@.len() == 7 && "B"@.len() == 1);
    }
    assert("ArrowUp"@ != "b"@) by {
        reveal_strlit("ArrowUp"); reveal_strlit("b"); assert("ArrowUp"@.len() == 7 && "b"@.len() == 1);
    }
    assert("ArrowUp"@ != "C"@) by {
        reveal_strlit("ArrowUp"); reveal_strlit("C"); assert("ArrowUp"@.len() == 7 && "C"@.len() == 1);
    }
    assert("ArrowUp"@ != "c"@) by {
        reveal_strlit("ArrowUp"); reveal_strlit("c"); assert("ArrowUp"@.len() == 7 && "c"@.len() == 1);
    }
    assert("ArrowUp"@ != "D"@) by {
        reveal_strlit("ArrowUp"); reveal_strlit("D"); assert("ArrowUp"@.len() == 7 && "D"@.len() == 1);
    }
    assert("ArrowUp"@ != "d"@) by {
        reveal_strlit("ArrowUp"); reveal_strlit("d"); assert("ArrowUp"@.len() == 7 && "d"@.len() == 1);
    }
    assert("ArrowUp"@ != "E"@) by {
        reveal_strlit("ArrowUp"); reveal_strlit("E"); assert("ArrowUp"@.len() == 7 && "E"@.len() == 1);
    }
    assert("ArrowUp"@ != "e"@) by {
        reveal_strlit("ArrowUp"); reveal_strlit("e"); assert("ArrowUp"@.len() == 7 && "e"@.len() == 1);
    }
    assert("ArrowUp"@ != "F"@) by {
        reveal_strlit("ArrowUp"); reveal_strlit("F"); assert("ArrowUp"@.len() == 7 && "F"@.len() == 1);
    }
    assert("ArrowUp"@ != "f"@) by {
        reveal_strlit("ArrowUp"); reveal_strlit("f"); assert("ArrowUp"@.len() == 7 && "f"@.len() == 1);
    }
    assert("ArrowUp"@ != "G"@) by {
        reveal_strlit("ArrowUp"); reveal_strlit("G"); assert("ArrowUp"@.len() == 7 && "G"@.len() == 1);
    }
    assert("ArrowUp"@ != "g"@) by {
        reveal_strlit("ArrowUp"); reveal_strlit("g"); assert("ArrowUp"@.len() == 7 && "g"@.len() == 1);
    }
    assert("ArrowUp"@ != "H"@) by {
        reveal_strlit("ArrowUp"); reveal_strlit("H"); assert("ArrowUp"@.len() == 7 && "H"@.len() == 1);
    }
    assert("ArrowUp"@ != "h"@) by {
        reveal_strlit("ArrowUp"); reveal_strlit("h"); assert("ArrowUp"@.len() == 7 && "h"@.len() == 1);
    }
    assert("ArrowUp"@ != "I"@) by {
        reveal_strlit("ArrowUp"); reveal_strlit("I"); assert("ArrowUp"@.len() == 7 && "I"@.len() == 1);
    }
    assert("ArrowUp"@ != "i"@) by {
        reveal_strlit("ArrowUp"); reveal_strlit("i"); assert("ArrowUp"@.len() == 7 && "i"@.len() == 1);
    }
    assert("ArrowUp"@ != "J"@) by {
        reveal_strlit("ArrowUp"); reveal_strlit("J"); assert("ArrowUp"@.len() == 7 && "J"@.len() == 1);
    }
    assert("ArrowUp"@ != "j"@) by {
        reveal_strlit("ArrowUp"); reveal_strlit("j"); assert("ArrowUp"@.len() == 7 && "j"@.len() == 1);
    }
    assert("ArrowUp"@ != "K"@) by {
        reveal_strlit("ArrowUp"); reveal_strlit("K"); assert("ArrowUp"@.len() == 7 && "K"@.len() == 1);
    }
    assert("ArrowUp"@ != "k"@) by {
        reveal_strlit("ArrowUp"); reveal_strlit("k"); assert("ArrowUp"@.len() == 7 && "k"@.len() == 1);
    }
    assert("ArrowUp"@ != "L"@) by {
        reveal_strlit("ArrowUp"); reveal_strlit("L"); assert("ArrowUp"@.len() == 7 && "L"@.len() == 1);
    }
    assert("ArrowUp"@ != "l"@) by {
        reveal_strlit("ArrowUp"); reveal_strlit("l"); assert("ArrowUp"@.len() == 7 && "l"@.len() == 1);
    }
    assert("ArrowUp"@ != "M"@) by {
        reveal_strlit("ArrowUp"); reveal_strlit("M"); assert("ArrowUp"@.len() == 7 && "M"@.len() == 1);
    }
    assert("ArrowUp"@ != "m"@) by {
        reveal_strlit("ArrowUp"); reveal_strlit("m"); assert("ArrowUp"@.len() == 7 && "m"@.len() == 1);
    }
    assert("ArrowUp"@ != "N"@) by {
        reveal_strlit("ArrowUp"); reveal_strlit("N"); assert("ArrowUp"@.len() == 7 && "N"@.len() == 1);
    }
    assert("ArrowUp"@ != "n"@) by {
        reveal_strlit("ArrowUp"); reveal_strlit("n"); assert("ArrowUp"@.len() == 7 && "n"@.len() == 1);
    }
    assert("ArrowUp"@ != "O"@) by {
        reveal_strlit("ArrowUp"); reveal_strlit("O"); assert("ArrowUp"@.len() == 7 && "O"@.len() == 1);
    }
    assert("ArrowUp"@ != "o"@) by {
        reveal_strlit("ArrowUp"); reveal_strlit("o"); assert("ArrowUp"@.len() == 7 && "o"@.len() == 1);
    }
    assert("ArrowUp"@ != "P"@) by {
        reveal_strlit("ArrowUp"); reveal_strlit("P"); assert("ArrowUp"@.len() == 7 && "P"@.len() == 1);
    }
    assert("ArrowUp"@ != "p"@) by {
        reveal_strlit("ArrowUp"); reveal_strlit("p"); assert("ArrowUp"@.len() == 7 && "p"@.len() == 1);
    }
    assert("ArrowUp"@ != "Q"@) by {
        reveal_strlit("ArrowUp"); reveal_strlit("Q"); assert("ArrowUp"@.len() == 7 && "Q"@.len() == 1);
    }
    assert("ArrowUp"@ != "q"@) by {
        reveal_strlit("ArrowUp"); reveal_strlit("q"); assert("ArrowUp"@.len() == 7 && "q"@.len() == 1);
    }
    assert("ArrowUp"@ != "R"@) by {
        reveal_strlit("ArrowUp"); reveal_strlit("R"); assert("ArrowUp"@.len() == 7 && "R"@.len() == 1);
    }
    assert("ArrowUp"@ != "r"@) by {
        reveal_strlit("ArrowUp"); reveal_strlit("r"); assert("ArrowUp"@.len() == 7 && "r"@.len() == 1);
    }
    assert("ArrowUp"@ != "S"@) by {
        reveal_strlit("ArrowUp"); reveal_strlit("S"); assert("ArrowUp"@.len() == 7 && "S"@.len() == 1);
    }
    assert("ArrowUp"@ != "s"@) by {
        reveal_strlit("ArrowUp"); reveal_strlit("s"); assert("ArrowUp"@.len() == 7 && "s"@.len() == 1);
    }
    assert("ArrowUp"@ != "T"@) by {
        reveal_strlit("ArrowUp"); reveal_strlit("T"); assert("ArrowUp"@.len() == 7 && "T"@.len() == 1);
    }
    assert("ArrowUp"@ != "t"@) by {
        reveal_strlit("ArrowUp"); reveal_strlit("t"); assert("ArrowUp"@.len() == 7 && "t"@.len() == 1);
    }
    assert("ArrowUp"@ != "U"@) by {
        reveal_strlit("ArrowUp"); reveal_strlit("U"); assert("ArrowUp"@.len() == 7 && "U"@.len() == 1);
    }
    assert("ArrowUp"@ != "u"@) by {
        reveal_strlit("ArrowUp"); reveal_strlit("u"); assert("ArrowUp"@.len() == 7 && "u"@.len() == 1);
    }
    assert("ArrowUp"@ != "V"@) by {
        reveal_strlit("ArrowUp"); reveal_strlit("V"); assert("ArrowUp"@.len() == 7 && "V"@.len() == 1);
    }
    assert("ArrowUp"@ != "v"@) by {
        reveal_strlit("ArrowUp"); reveal_strlit("v"); assert("ArrowUp"@.len() == 7 && "v"@.len() == 1);
    }
    assert("ArrowUp"@ != "W"@) by {
        reveal_strlit("ArrowUp"); reveal_strlit("W"); assert("ArrowUp"@.len() == 7 && "W"@.len() == 1);
    }
    assert("ArrowUp"@ != "w"@) by {
        reveal_strlit("ArrowUp"); reveal_strlit("w"); assert("ArrowUp"@.len() == 7 && "w"@.len() == 1);
    }
    assert("ArrowUp"@ != "X"@) by {
        reveal_strlit("ArrowUp"); reveal_strlit("X"); assert("ArrowUp"@.len() == 7 && "X"@.len() == 1);
    }
    assert("ArrowUp"@ != "x"@) by {
        reveal_strlit("ArrowUp"); reveal_strlit("x"); assert("ArrowUp"@.len() == 7 && "x"@.len() == 1);
    }
    assert("ArrowUp"@ != "Y"@) by {
        reveal_strlit("ArrowUp"); reveal_strlit("Y"); assert("ArrowUp"@.len() == 7 && "Y"@.len() == 1);
    }
    assert("ArrowUp"@ != "y"@) by {
        reveal_strlit("ArrowUp"); reveal_strlit("y"); assert("ArrowUp"@.len() == 7 && "y"@.len() == 1);
    }
    assert("ArrowUp"@ != "Z"@) by {
        reveal_strlit("ArrowUp"); reveal_strlit("Z"); assert("ArrowUp"@.len() == 7 && "Z"@.len() == 1);
    }
    assert("ArrowUp"@ != "z"@) by {
        reveal_strlit("ArrowUp"); reveal_strlit("z"); assert("ArrowUp"@.len() == 7 && "z"@.len() == 1);
    }
    assert("ArrowUp"@ != "Escape"@) by {
        reveal_strlit("ArrowUp"); reveal_strlit("Escape"); assert("ArrowUp"@.len() == 7 && "Escape"@.len() == 6);
    }
    assert("ArrowUp"@ != "F1"@) by {
        reveal_strlit("ArrowUp"); reveal_strlit("F1"); assert("ArrowUp"@.len() == 7 && "F1"@.len() == 2);
    }
    assert("ArrowUp"@ != "F2"@) by {
        reveal_strlit("ArrowUp"); reveal_strlit("F2"); assert("ArrowUp"@.len() == 7 && "F2"@.len() == 2);
    }
    assert("ArrowUp"@ != "F3"@) by {
        reveal_strlit("ArrowUp"); reveal_strlit("F3"); assert("ArrowUp"@.len() == 7 && "F3"@.len() == 2);
    }
    assert("ArrowUp"@ != "F4"@) by {
        reveal_strlit("ArrowUp"); reveal_strlit("F4"); assert("ArrowUp"@.len() == 7 && "F4"@.len() == 2);
    }
    assert("ArrowUp"@ != "F5"@) by {
        reveal_strlit("ArrowUp"); reveal_strlit("F5"); assert("ArrowUp"@.len() == 7 && "F5"@.len() == 2);
    }
    assert("ArrowUp"@ != "F6"@) by {
        reveal_strlit("ArrowUp"); reveal_strlit("F6"); assert("ArrowUp"@.len() == 7 && "F6"@.len() == 2);
    }
    assert("ArrowUp"@ != "F7"@) by {
        reveal_strlit("ArrowUp"); reveal_strlit("F7"); assert("ArrowUp"@.len() == 7 && "F7"@.len() == 2);
    }
    assert("ArrowUp"@ != "F8"@) by {
        reveal_strlit("ArrowUp"); reveal_strlit("F8"); assert("ArrowUp"@.len() == 7 && "F8"@.len() == 2);
    }
    assert("ArrowUp"@ != "F9"@) by {
        reveal_strlit("ArrowUp"); reveal_strlit("F9"); assert("ArrowUp"@.len() == 7 && "F9"@.len() == 2);
    }
    assert("ArrowUp"@ != "F10"@) by {
        reveal_strlit("ArrowUp"); reveal_strlit("F10"); assert("ArrowUp"@.len() == 7 && "F10"@.len() == 3);
    }
    assert("ArrowUp"@ != "F11"@) by {
        reveal_strlit("ArrowUp"); reveal_strlit("F11"); assert("ArrowUp"@.len() == 7 && "F11"@.len() == 3);
    }
    assert("ArrowUp"@ != "F12"@) by {
        reveal_strlit("ArrowUp"); reveal_strlit("F12"); assert("ArrowUp"@.len() == 7 && "F12"@.len() == 3);
    }
    assert("ArrowUp"@ != "F13"@) by {
        reveal_strlit("ArrowUp"); reveal_strlit("F13"); assert("ArrowUp"@.len() == 7 && "F13"@.len() == 3);
    }
    assert("ArrowUp"@ != "F14"@) by {
        reveal_strlit("ArrowUp"); reveal_strlit("F14"); assert("ArrowUp"@.len() == 7 && "F14"@.len() == 3);
    }
    assert("ArrowUp"@ != "F15"@) by {
        reveal_strlit("ArrowUp"); reveal_strlit("F15"); assert("ArrowUp"@.len() == 7 && "F15"@.len() == 3);
    }
    assert("ArrowUp"@ != "F16"@) by {
        reveal_strlit("ArrowUp"); reveal_strlit("F16"); assert("ArrowUp"@.len() == 7 && "F16"@.len() == 3);
    }
    assert("ArrowUp"@ != "F17"@) by {
        reveal_strlit("ArrowUp"); reveal_strlit("F17"); assert("ArrowUp"@.len() == 7 && "F17"@.len() == 3);
    }
    assert("ArrowUp"@ != "F18"@) by {
        reveal_strlit("ArrowUp"); reveal_strlit("F18"); assert("ArrowUp"@.len() == 7 && "F18"@.len() == 3);
    }
    assert("ArrowUp"@ != "F19"@) by {
        reveal_strlit("ArrowUp"); reveal_strlit("F19"); assert("ArrowUp"@.len() == 7 && "F19"@.len() == 3);
    }
    assert("ArrowUp"@ != "F20"@) by {
        reveal_strlit("ArrowUp"); reveal_strlit("F20"); assert("ArrowUp"@.len() == 7 && "F20"@.len() == 3);
    }
    assert("ArrowUp"@ != "F21"@) by {
        reveal_strlit("ArrowUp"); reveal_strlit("F21"); assert("ArrowUp"@.len() == 7 && "F21"@.len() == 3);
    }
    assert("ArrowUp"@ != "F22"@) by {
        reveal_strlit("ArrowUp"); reveal_strlit("F22"); assert("ArrowUp"@.len() == 7 && "F22"@.len() == 3);
    }
    assert("ArrowUp"@ != "F23"@) by {
        reveal_strlit("ArrowUp"); reveal_strlit("F23"); assert("ArrowUp"@.len() == 7 && "F23"@.len() == 3);
    }
    assert("ArrowUp"@ != "F24"@) by {
        reveal_strlit("ArrowUp"); reveal_strlit("F24"); assert("ArrowUp"@.len() == 7 && "F24"@.len() == 3);
    }
    assert("ArrowUp"@ != "Snapshot"@) by {
        reveal_strlit("ArrowUp"); reveal_strlit("Snapshot"); assert("ArrowUp"@.len() == 7 && "Snapshot"@.len() == 8);
    }
    assert("ArrowUp"@ != "Scroll"@) by {
        reveal_strlit("ArrowUp"); reveal_strlit("Scroll"); assert("ArrowUp"@.len() == 7 && "Scroll"@.len() == 6);
    }
    assert("ArrowUp"@ != "Pause"@) by {
        reveal_strlit("ArrowUp"); reveal_strlit("Pause"); assert("ArrowUp"@.len() == 7 && "Pause"@.len() == 5);
    }
    assert("ArrowUp"@ != "Insert"@) by {
        reveal_strlit("ArrowUp"); reveal_strlit("Insert"); assert("ArrowUp"@.len() == 7 && "Insert"@.len() == 6);
    }
    assert("ArrowUp"@ != "Home"@) by {
        reveal_strlit("ArrowUp"); reveal_strlit("Home"); assert("ArrowUp"@.len() == 7 && "Home"@.len() == 4);
    }
    assert("ArrowUp"@ != "Delete"@) by {
        reveal_strlit("ArrowUp"); reveal_strlit("Delete"); assert("ArrowUp"@.len() == 7 && "Delete"@.len() == 6);
    }
    assert("ArrowUp"@ != "End"@) by {
        reveal_strlit("ArrowUp"); reveal_strlit("End"); assert("ArrowUp"@.len() == 7 && "End"@.len() == 3);
    }
    assert("ArrowUp"@ != "PageDown"@) by {
        reveal_strlit("ArrowUp"); reveal_strlit("PageDown"); assert("ArrowUp"@.len() == 7 && "PageDown"@.len() == 8);
    }
    assert("ArrowUp"@ != "PageUp"@) by {
        reveal_strlit("ArrowUp"); reveal_strlit("PageUp"); assert("ArrowUp"@.len() == 7 && "PageUp"@.len() == 6);
    }
    assert("ArrowUp"@ != "ArrowLeft"@) by {
        reveal_strlit("ArrowUp"); reveal_strlit("ArrowLeft"); assert("ArrowUp"@.len() == 7 && "ArrowLeft"@.len() == 9);
    }
}

/// The browser's down arrow is the down key.
pub proof fn lemma_web_arrow_down()
    ensures
        web_key("ArrowDown"@) == Key::Down,
{
    assert("ArrowDown"@ != "1"@) by {
        reveal_strlit("ArrowDown"); reveal_strlit("1"); assert("ArrowDown"@.len() == 9 && "1"@.len() == 1);
    }
    assert("ArrowDown"@ != "2"@) by {
        reveal_strlit("ArrowDown"); reveal_strlit("2"); assert("ArrowDown"@.len() == 9 && "2"@.len() == 1);
    }
    assert("ArrowDown"@ != "3"@) by {
        reveal_strlit("ArrowDown"); reveal_strlit("3"); assert("ArrowDown"@.len() == 9 && "3"@.len() == 1);
    }
    assert("ArrowDown"@ != "4"@) by {
        reveal_strlit("ArrowDown"); reveal_strlit("4"); assert("ArrowDown"@.len() == 9 && "4"@.len() == 1);
    }
    assert("ArrowDown"@ != "5"@) by {
        reveal_strlit("ArrowDown"); reveal_strlit("5"); assert("ArrowDown"@.len() == 9 && "5"@.len() == 1);
    }
    assert("ArrowDown"@ != "6"@) by {
        reveal_strlit("ArrowDown"); reveal_strlit("6"); assert("ArrowDown"@.len() == 9 && "6"@.len() == 1);
    }
    assert("ArrowDown"@ != "7"@) by {
        reveal_strlit("ArrowDown"); reveal_strlit("7"); assert("ArrowDown"@.len() == 9 && "7"@.len() == 1);
    }
    assert("ArrowDown"@ != "8"@) by {
        reveal_strlit("ArrowDown"); reveal_strlit("8"); assert("ArrowDown"@.len() == 9 && "8"@.len() == 1);
    }
    assert("ArrowDown"@ != "9"@) by {
        reveal_strlit("ArrowDown"); reveal_strlit("9"); assert("ArrowDown"@.len() == 9 && "9"@.len() == 1);
    }
    assert("ArrowDown"@ != "0"@) by {
        reveal_strlit("ArrowDown"); reveal_strlit("0"); assert("ArrowDown"@.len() == 9 && "0"@.len() == 1);
    }
    assert("ArrowDown"@ != "A"@) by {
        reveal_strlit("ArrowDown"); reveal_strlit("A"); assert("ArrowDown"@.len() == 9 && "A"@.len() == 1);
    }
    assert("ArrowDown"@ != "a"@) by {
        reveal_strlit("ArrowDown"); reveal_strlit("a"); assert("ArrowDown"@.len() == 9 && "a"@.len() == 1);
    }
    assert("ArrowDown"@ != "B"@) by {
        reveal_strlit("ArrowDown"); reveal_strlit("B"); assert("ArrowDown"@.len() == 9 && "B"@.len() == 1);
    }
    assert("ArrowDown"@ != "b"@) by {
        reveal_strlit("ArrowDown"); reveal_strlit("b"); assert("ArrowDown"@.len() == 9 && "b"@.len() == 1);
    }
    assert("ArrowDown"@ != "C"@) by {
        reveal_strlit("ArrowDown"); reveal_strlit("C"); assert("ArrowDown"@.len() == 9 && "C"@.len() == 1);
    }
    assert("ArrowDown"@ != "c"@) by {
        reveal_strlit("ArrowDown"); reveal_strlit("c"); assert("ArrowDown"@.len() == 9 && "c"@.len() == 1);
    }
    assert("ArrowDown"@ != "D"@) by {
        reveal_strlit("ArrowDown"); reveal_strlit("D"); assert("ArrowDown"@.len() == 9 && "D"@.len() == 1);
    }
    assert("ArrowDown"@ != "d"@) by {
        reveal_strlit("ArrowDown"); reveal_strlit("d"); assert("ArrowDown"@.len() == 9 && "d"@.len() == 1);
    }
    assert("ArrowDown"@ != "E"@) by {
        reveal_strlit("ArrowDown"); reveal_strlit("E"); assert("ArrowDown"@.len() == 9 && "E"@.len() == 1);
    }
    assert("ArrowDown"@ != "e"@) by {
        reveal_strlit("ArrowDown"); reveal_strlit("e"); assert("ArrowDown"@.len() == 9 && "e"@.len() == 1);
    }
    assert("ArrowDown"@ != "F"@) by {
        reveal_strlit("ArrowDown"); reveal_strlit("F"); assert("ArrowDown"@.len() == 9 && "F"@.len() == 1);
    }
    assert("ArrowDown"@ != "f"@) by {
        reveal_strlit("ArrowDown"); reveal_strlit("f"); assert("ArrowDown"@.len() == 9 && "f"@.len() == 1);
    }
    assert("ArrowDown"@ != "G"@) by {
        reveal_strlit("ArrowDown"); reveal_strlit("G"); assert("ArrowDown"@.len() == 9 && "G"@.len() == 1);
    }
    assert("ArrowDown"@ != "g"@) by {
        reveal_strlit("ArrowDown"); reveal_strlit("g"); assert("ArrowDown"@.len() == 9 && "g"@.len() == 1);
    }
    assert("ArrowDown"@ != "H"@) by {
        reveal_strlit("ArrowDown"); reveal_strlit("H"); assert("ArrowDown"@.len() == 9 && "H"@.len() == 1);
    }
    assert("ArrowDown"@ != "h"@) by {
        reveal_strlit("ArrowDown"); reveal_strlit("h"); assert("ArrowDown"@.len() == 9 && "h"@.len() == 1);
    }
    assert("ArrowDown"@ != "I"@) by {
        reveal_strlit("ArrowDown"); reveal_strlit("I"); assert("ArrowDown"@.len() == 9 && "I"@.len() == 1);
    }
    assert("ArrowDown"@ != "i"@) by {
        reveal_strlit("ArrowDown"); reveal_strlit("i"); assert("ArrowDown"@.len() == 9 && "i"@.len() == 1);
    }
    assert("ArrowDown"@ != "J"@) by {
        reveal_strlit("ArrowDown"); reveal_strlit("J"); assert("ArrowDown"@.len() == 9 && "J"@.len() == 1);
    }
    assert("ArrowDown"@ != "j"@) by {
        reveal_strlit("ArrowDown"); reveal_strlit("j"); assert("ArrowDown"@.len() == 9 && "j"@.len() == 1);
    }
    assert("ArrowDown"@ != "K"@) by {
        reveal_strlit("ArrowDown"); reveal_strlit("K"); assert("ArrowDown"@.len() == 9 && "K"@.len() == 1);
    }
    assert("ArrowDown"@ != "k"@) by {
        reveal_strlit("ArrowDown"); reveal_strlit("k"); assert("ArrowDown"@.len() == 9 && "k"@.len() == 1);
    }
    assert("ArrowDown"@ != "L"@) by {
        reveal_strlit("ArrowDown"); reveal_strlit("L"); assert("ArrowDown"@.len() == 9 && "L"@.len() == 1);
    }
    assert("ArrowDown"@ != "l"@) by {
        reveal_strlit("ArrowDown"); reveal_strlit("l"); assert("ArrowDown"@.len() == 9 && "l"@.len() == 1);
    }
    assert("ArrowDown"@ != "M"@) by {
        reveal_strlit("ArrowDown"); reveal_strlit("M"); assert("ArrowDown"@.len() == 9 && "M"@.len() == 1);
    }
    assert("ArrowDown"@ != "m"@) by {
        reveal_strlit("ArrowDown"); reveal_strlit("m"); assert("ArrowDown"@.len() == 9 && "m"@.len() == 1);
    }
    assert("ArrowDown"@ != "N"@) by {
        reveal_strlit("ArrowDown"); reveal_strlit("N"); assert("ArrowDown"@.len() == 9 && "N"@.len() == 1);
    }
    assert("ArrowDown"@ != "n"@) by {
        reveal_strlit("ArrowDown"); reveal_strlit("n"); assert("ArrowDown"@.len() == 9 && "n"@.len() == 1);
    }
    assert("ArrowDown"@ != "O"@) by {
        reveal_strlit("ArrowDown"); reveal_strlit("O"); assert("ArrowDown"@.len() == 9 && "O"@.len() == 1);
    }
    assert("ArrowDown"@ != "o"@) by {
        reveal_strlit("ArrowDown"); reveal_strlit("o"); assert("ArrowDown"@.len() == 9 && "o"@.len() == 1);
    }
    assert("ArrowDown"@ != "P"@) by {
        reveal_strlit("ArrowDown"); reveal_strlit("P"); assert("ArrowDown"@.len() == 9 && "P"@.len() == 1);
    }
    assert("ArrowDown"@ != "p"@) by {
        reveal_strlit("ArrowDown"); reveal_strlit("p"); assert("ArrowDown"@.len() == 9 && "p"@.len() == 1);
    }
    assert("ArrowDown"@ != "Q"@) by {
        reveal_strlit("ArrowDown"); reveal_strlit("Q"); assert("ArrowDown"@.len() == 9 && "Q"@.len() == 1);
    }
    assert("ArrowDown"@ != "q"@) by {
        reveal_strlit("ArrowDown"); reveal_strlit("q"); assert("ArrowDown"@.len() == 9 && "q"@.len() == 1);
    }
    assert("ArrowDown"@ != "R"@) by {
        reveal_strlit("ArrowDown"); reveal_strlit("R"); assert("ArrowDown"@.len() == 9 && "R"@.len() == 1);
    }
    assert("ArrowDown"@ != "r"@) by {
        reveal_strlit("ArrowDown"); reveal_strlit("r"); assert("ArrowDown"@.len() == 9 && "r"@.len() == 1);
    }
    assert("ArrowDown"@ != "S"@) by {
        reveal_strlit("ArrowDown"); reveal_strlit("S"); assert("ArrowDown"@.len() == 9 && "S"@.len() == 1);
    }
    assert("ArrowDown"@ != "s"@) by {
        reveal_strlit("ArrowDown"); reveal_strlit("s"); assert("ArrowDown"@.len() == 9 && "s"@.len() == 1);
    }
    assert("ArrowDown"@ != "T"@) by {
        reveal_strlit("ArrowDown"); reveal_strlit("T"); assert("ArrowDown"@.len() == 9 && "T"@.len() == 1);
    }
    assert("ArrowDown"@ != "t"@) by {
        reveal_strlit("ArrowDown"); reveal_strlit("t"); assert("ArrowDown"@.len() == 9 && "t"@.len() == 1);
    }
    assert("ArrowDown"@ != "U"@) by {
        reveal_strlit("ArrowDown"); reveal_strlit("U"); assert("ArrowDown"@.len() == 9 && "U"@.len() == 1);
    }
    assert("ArrowDown"@ != "u"@) by {
        reveal_strlit("ArrowDown"); reveal_strlit("u"); assert("ArrowDown"@.len() == 9 && "u"@.len() == 1);
    }
    assert("ArrowDown"@ != "V"@) by {
        reveal_strlit("ArrowDown"); reveal_strlit("V"); assert("ArrowDown"@.len() == 9 && "V"@.len() == 1);
    }
    assert("ArrowDown"@ != "v"@) by {
        reveal_strlit("ArrowDown"); reveal_strlit("v"); assert("ArrowDown"@.len() == 9 && "v"@.len() == 1);
    }
    assert("ArrowDown"@ != "W"@) by {
        reveal_strlit("ArrowDown"); reveal_strlit("W"); assert("ArrowDown"@.len() == 9 && "W"@.len() == 1);
    }
    assert("ArrowDown"@ != "w"@) by {
        reveal_strlit("ArrowDown"); reveal_strlit("w"); assert("ArrowDown"@.len() == 9 && "w"@.len() == 1);
    }
    assert("ArrowDown"@ != "X"@) by {
        reveal_strlit("ArrowDown"); reveal_strlit("X"); assert("ArrowDown"@.len() == 9 && "X"@.len() == 1);
    }
    assert("ArrowDown"@ != "x"@) by {
        reveal_strlit("ArrowDown"); reveal_strlit("x"); assert("ArrowDown"@.len() == 9 && "x"@.len() == 1);
    }
    assert("ArrowDown"@ != "Y"@) by {
        reveal_strlit("ArrowDown"); reveal_strlit("Y"); assert("ArrowDown"@.len() == 9 && "Y"@.len() == 1);
    }
    assert("ArrowDown"@ != "y"@) by {
        reveal_strlit("ArrowDown"); reveal_strlit("y"); assert("ArrowDown"@.len() == 9 && "y"@.len() == 1);
    }
    assert("ArrowDown"@ != "Z"@) by {
        reveal_strlit("ArrowDown"); reveal_strlit("Z"); assert("ArrowDown"@.len() == 9 && "Z"@.len() == 1);
    }
    assert("ArrowDown"@ != "z"@) by {
        reveal_strlit("ArrowDown"); reveal_strlit("z"); assert("ArrowDown"@.len() == 9 && "z"@.len() == 1);
    }
    assert("ArrowDown"@ != "Escape"@) by {
        reveal_strlit("ArrowDown"); reveal_strlit("Escape"); assert("ArrowDown"@.len() == 9 && "Escape"@.len() == 6);
    }
    assert("ArrowDown"@ != "F1"@) by {
        reveal_strlit("ArrowDown"); reveal_strlit("F1"); assert("ArrowDown"@.len() == 9 && "F1"@.len() == 2);
    }
    assert("ArrowDown"@ != "F2"@) by {
        reveal_strlit("ArrowDown"); reveal_strlit("F2"); assert("ArrowDown"@.len() == 9 && "F2"@.len() == 2);
    }
    assert("ArrowDown"@ != "F3"@) by {
        reveal_strlit("ArrowDown"); reveal_strlit("F3"); assert("ArrowDown"@.len() == 9 && "F3"@.len() == 2);
    }
    assert("ArrowDown"@ != "F4"@) by {
        reveal_strlit("ArrowDown"); reveal_strlit("F4"); assert("ArrowDown"@.len() == 9 && "F4"@.len() == 2);
    }
    assert("ArrowDown"@ != "F5"@) by {
        reveal_strlit("ArrowDown"); reveal_strlit("F5"); assert("ArrowDown"@.len() == 9 && "F5"@.len() == 2);
    }
    assert("ArrowDown"@ != "F6"@) by {
        reveal_strlit("ArrowDown"); reveal_strlit("F6"); assert("ArrowDown"@.len() == 9 && "F6"@.len() == 2);
    }
    assert("ArrowDown"@ != "F7"@) by {
        reveal_strlit("ArrowDown"); reveal_strlit("F7"); assert("ArrowDown"@.len() == 9 && "F7"@.len() == 2);
    }
    assert("ArrowDown"@ != "F8"@) by {
        reveal_strlit("ArrowDown"); reveal_strlit("F8"); assert("ArrowDown"@.len() == 9 && "F8"@.len() == 2);
    }
    assert("ArrowDown"@ != "F9"@) by {
        reveal_strlit("ArrowDown"); reveal_strlit("F9"); assert("ArrowDown"@.len() == 9 && "F9"@.len() == 2);
    }
    assert("ArrowDown"@ != "F10"@) by {
        reveal_strlit("ArrowDown"); reveal_strlit("F10"); assert("ArrowDown"@.len() == 9 && "F10"@.len() == 3);
    }
    assert("ArrowDown"@ != "F11"@) by {
        reveal_strlit("ArrowDown"); reveal_strlit("F11"); assert("ArrowDown"@.len() == 9 && "F11"@.len() == 3);
    }
    assert("ArrowDown"@ != "F12"@) by {
        reveal_strlit("ArrowDown"); reveal_strlit("F12"); assert("ArrowDown"@.len() == 9 && "F12"@.len() == 3);
    }
    assert("ArrowDown"@ != "F13"@) by {
        reveal_strlit("ArrowDown"); reveal_strlit("F13"); assert("ArrowDown"@.len() == 9 && "F13"@.len() == 3);
    }
    assert("ArrowDown"@ != "F14"@) by {
        reveal_strlit("ArrowDown"); reveal_strlit("F14"); assert("ArrowDown"@.len() == 9 && "F14"@.len() == 3);
    }
    assert("ArrowDown"@ != "F15"@) by {
        reveal_strlit("ArrowDown"); reveal_strlit("F15"); assert("ArrowDown"@.len() == 9 && "F15"@.len() == 3);
    }
    assert("ArrowDown"@ != "F16"@) by {
        reveal_strlit("ArrowDown"); reveal_strlit("F16"); assert("ArrowDown"@.len() == 9 && "F16"@.len() == 3);
    }
    assert("ArrowDown"@ != "F17"@) by {
        reveal_strlit("ArrowDown"); reveal_strlit("F17"); assert("ArrowDown"@.len() == 9 && "F17"@.len() == 3);
    }
    assert("ArrowDown"@ != "F18"@) by {
        reveal_strlit("ArrowDown"); reveal_strlit("F18"); assert("ArrowDown"@.len() == 9 && "F18"@.len() == 3);
    }
    assert("ArrowDown"@ != "F19"@) by {
        reveal_strlit("ArrowDown"); reveal_strlit("F19"); assert("ArrowDown"@.len() == 9 && "F19"@.len() == 3);
    }
    assert("ArrowDown"@ != "F20"@) by {
        reveal_strlit("ArrowDown"); reveal_strlit("F20"); assert("ArrowDown"@.len() == 9 && "F20"@.len() == 3);
    }
    assert("ArrowDown"@ != "F21"@) by {
        reveal_strlit("ArrowDown"); reveal_strlit("F21"); assert("ArrowDown"@.len() == 9 && "F21"@.len() == 3);
    }
    assert("ArrowDown"@ != "F22"@) by {
        reveal_strlit("ArrowDown"); reveal_strlit("F22"); assert("ArrowDown"@.len() == 9 && "F22"@.len() == 3);
    }
    assert("ArrowDown"@ != "F23"@) by {
        reveal_strlit("ArrowDown"); reveal_strlit("F23"); assert("ArrowDown"@.len() == 9 && "F23"@.len() == 3);
    }
    assert("ArrowDown"@ != "F24"@) by {
        reveal_strlit("ArrowDown"); reveal_strlit("F24"); assert("ArrowDown"@.len() == 9 && "F24"@.len() == 3);
    }
    assert("ArrowDown"@ != "Snapshot"@) by {
        reveal_strlit("ArrowDown"); reveal_strlit("Snapshot"); assert("ArrowDown"@.len() == 9 && "Snapshot"@.len() == 8);
    }
    assert("ArrowDown"@ != "Scroll"@) by {
        reveal_strlit("ArrowDown"); reveal_strlit("Scroll"); assert("ArrowDown"@.len() == 9 && "Scroll"@.len() == 6);
    }
    assert("ArrowDown"@ != "Pause"@) by {
        reveal_strlit("ArrowDown"); reveal_strlit("Pause"); assert("ArrowDown"@.len() == 9 && "Pause"@.len() == 5);
    }
    assert("ArrowDown"@ != "Insert"@) by {
        reveal_strlit("ArrowDown"); reveal_strlit("Insert"); assert("ArrowDown"@.len() == 9 && "Insert"@.len() == 6);
    }
    assert("ArrowDown"@ != "Home"@) by {
        reveal_strlit("ArrowDown"); reveal_strlit("Home"); assert("ArrowDown"@.len() == 9 && "Home"@.len() == 4);
    }
    assert("ArrowDown"@ != "Delete"@) by {
        reveal_strlit("ArrowDown"); reveal_strlit("Delete"); assert("ArrowDown"@.len() == 9 && "Delete"@.len() == 6);
    }
    assert("ArrowDown"@ != "End"@) by {
        reveal_strlit("ArrowDown"); reveal_strlit("End"); assert("ArrowDown"@.len() == 9 && "End"@.len() == 3);
    }
    assert("ArrowDown"@ != "PageDown"@) by {
        reveal_strlit("ArrowDown"); reveal_strlit("PageDown"); assert("ArrowDown"@.len() == 9 && "PageDown"@.len() == 8);
    }
    assert("ArrowDown"@ != "PageUp"@) by {
        reveal_strlit("ArrowDown"); reveal_strlit("PageUp"); assert("ArrowDown"@.len() == 9 && "PageUp"@.len() == 6);
    }
    assert("ArrowDown"@ != "ArrowLeft"@) by {
        reveal_strlit("ArrowDown"); reveal_strlit("ArrowLeft"); assert("ArrowDown"@[5] == 'D' && "ArrowLeft"@[5] == 'L');
    }
    assert("ArrowDown"@ != "ArrowUp"@) by {
        reveal_strlit("ArrowDown"); reveal_strlit("ArrowUp"); assert("ArrowDown"@.len() == 9 && "ArrowUp"@.len() == 7);
    }
    assert("ArrowDown"@ != "ArrowRight"@) by {
        reveal_strlit("ArrowDown"); reveal_strlit("ArrowRight"); assert("ArrowDown"@.len() == 9 && "ArrowRight"@.len() == 10);
    }
}

/// The browser's left arrow is the left key.
pub proof fn lemma_web_arrow_left()
    ensures
        web_key("ArrowLeft"@) == Key::Left,
{
    assert("ArrowLeft"@ != "1"@) by {
        reveal_strlit("ArrowLeft"); reveal_strlit("1"); assert("ArrowLeft"@.len() == 9 && "1"@.len() == 1);
    }
    assert("ArrowLeft"@ != "2"@) by {
        reveal_strlit("ArrowLeft"); reveal_strlit("2"); assert("ArrowLeft"@.len() == 9 && "2"@.len() == 1);
    }
    assert("ArrowLeft"@ != "3"@) by {
        reveal_strlit("ArrowLeft"); reveal_strlit("3"); assert("ArrowLeft"@.len() == 9 && "3"@.len() == 1);
    }
    assert("ArrowLeft"@ != "4"@) by {
        reveal_strlit("ArrowLeft"); reveal_strlit("4"); assert("ArrowLeft"@.len() == 9 && "4"@.len() == 1);
    }
    assert("ArrowLeft"@ != "5"@) by {
        reveal_strlit("ArrowLeft"); reveal_strlit("5"); assert("ArrowLeft"@.len() == 9 && "5"@.len() == 1);
    }
    assert("ArrowLeft"@ != "6"@) by {
        reveal_strlit("ArrowLeft"); reveal_strlit("6"); assert("ArrowLeft"@.len() == 9 && "6"@.len() == 1);
    }
    assert("ArrowLeft"@ != "7"@) by {
        reveal_strlit("ArrowLeft"); reveal_strlit("7"); assert("ArrowLeft"@.len() == 9 && "7"@.len() == 1);
    }
    assert("ArrowLeft"@ != "8"@) by {
        reveal_strlit("ArrowLeft"); reveal_strlit("8"); assert("ArrowLeft"@.len() == 9 && "8"@.len() == 1);
    }
    assert("ArrowLeft"@ != "9"@) by {
        reveal_strlit("ArrowLeft"); reveal_strlit("9"); assert("ArrowLeft"@.len() == 9 && "9"@.len() == 1);
    }
    assert("ArrowLeft"@ != "0"@) by {
        reveal_strlit("ArrowLeft"); reveal_strlit("0"); assert("ArrowLeft"@.len() == 9 && "0"@.len() == 1);
    }
    assert("ArrowLeft"@ != "A"@) by {
        reveal_strlit("ArrowLeft"); reveal_strlit("A"); assert("ArrowLeft"@.len() == 9 && "A"@.len() == 1);
    }
    assert("ArrowLeft"@ != "a"@) by {
        reveal_strlit("ArrowLeft"); reveal_strlit("a"); assert("ArrowLeft"@.len() == 9 && "a"@.len() == 1);
    }
    assert("ArrowLeft"@ != "B"@) by {
        reveal_strlit("ArrowLeft"); reveal_strlit("B"); assert("ArrowLeft"@.len() == 9 && "B"@.len() == 1);
    }
    assert("ArrowLeft"@ != "b"@) by {
        reveal_strlit("ArrowLeft"); reveal_strlit("b"); assert("ArrowLeft"@.len() == 9 && "b"@.len() == 1);
    }
    assert("ArrowLeft"@ != "C"@) by {
        reveal_strlit("ArrowLeft"); reveal_strlit("C"); assert("ArrowLeft"@.len() == 9 && "C"@.len() == 1);
    }
    assert("ArrowLeft"@ != "c"@) by {
        reveal_strlit("ArrowLeft"); reveal_strlit("c"); assert("ArrowLeft"@.len() == 9 && "c"@.len() == 1);
    }
    assert("ArrowLeft"@ != "D"@) by {
        reveal_strlit("ArrowLeft"); reveal_strlit("D"); assert("ArrowLeft"@.len() == 9 && "D"@.len() == 1);
    }
    assert("ArrowLeft"@ != "d"@) by {
        reveal_strlit("ArrowLeft"); reveal_strlit("d"); assert("ArrowLeft"@.len() == 9 && "d"@.len() == 1);
    }
    assert("ArrowLeft"@ != "E"@) by {
        reveal_strlit("ArrowLeft"); reveal_strlit("E"); assert("ArrowLeft"@.len() == 9 && "E"@.len() == 1);
    }
    assert("ArrowLeft"@ != "e"@) by {
        reveal_strlit("ArrowLeft"); reveal_strlit("e"); assert("ArrowLeft"@.len() == 9 && "e"@.len() == 1);
    }
    assert("ArrowLeft"@ != "F"@) by {
        reveal_strlit("ArrowLeft"); reveal_strlit("F"); assert("ArrowLeft"@.len() == 9 && "F"@.len() == 1);
    }
    assert("ArrowLeft"@ != "f"@) by {
        reveal_strlit("ArrowLeft"); reveal_strlit("f"); assert("ArrowLeft"@.len() == 9 && "f"@.len() == 1);
    }
    assert("ArrowLeft"@ != "G"@) by {
        reveal_strlit("ArrowLeft"); reveal_strlit("G"); assert("ArrowLeft"@.len() == 9 && "G"@.len() == 1);
    }
    assert("ArrowLeft"@ != "g"@) by {
        reveal_strlit("ArrowLeft"); reveal_strlit("g"); assert("ArrowLeft"@.len() == 9 && "g"@.len() == 1);
    }
    assert("ArrowLeft"@ != "H"@) by {
        reveal_strlit("ArrowLeft"); reveal_strlit("H"); assert("ArrowLeft"@.len() == 9 && "H"@.len() == 1);
    }
    assert("ArrowLeft"@ != "h"@) by {
        reveal_strlit("ArrowLeft"); reveal_strlit("h"); assert("ArrowLeft"@.len() == 9 && "h"@.len() == 1);
    }
    assert("ArrowLeft"@ != "I"@) by {
        reveal_strlit("ArrowLeft"); reveal_strlit("I"); assert("ArrowLeft"@.len() == 9 && "I"@.len() == 1);
    }
    assert("ArrowLeft"@ != "i"@) by {
        reveal_strlit("ArrowLeft"); reveal_strlit("i"); assert("ArrowLeft"@.len() == 9 && "i"@.len() == 1);
    }
    assert("ArrowLeft"@ != "J"@) by {
        reveal_strlit("ArrowLeft"); reveal_strlit("J"); assert("ArrowLeft"@.len() == 9 && "J"@.len() == 1);
    }
    assert("ArrowLeft"@ != "j"@) by {
        reveal_strlit("ArrowLeft"); reveal_strlit("j"); assert("ArrowLeft"@.len() == 9 && "j"@.len() == 1);
    }
    assert("ArrowLeft"@ != "K"@) by {
        reveal_strlit("ArrowLeft"); reveal_strlit("K"); assert("ArrowLeft"@.len() == 9 && "K"@.len() == 1);
    }
    assert("ArrowLeft"@ != "k"@) by {
        reveal_strlit("ArrowLeft"); reveal_strlit("k"); assert("ArrowLeft"@.len() == 9 && "k"@.len() == 1);
    }
    assert("ArrowLeft"@ != "L"@) by {
        reveal_strlit("ArrowLeft"); reveal_strlit("L"); assert("ArrowLeft"@.len() == 9 && "L"@.len() == 1);
    }
    assert("ArrowLeft"@ != "l"@) by {
        reveal_strlit("ArrowLeft"); reveal_strlit("l"); assert("ArrowLeft"@.len() == 9 && "l"@.len() == 1);
    }
    assert("ArrowLeft"@ != "M"@) by {
        reveal_strlit("ArrowLeft"); reveal_strlit("M"); assert("ArrowLeft"@.len() == 9 && "M"@.len() == 1);
    }
    assert("ArrowLeft"@ != "m"@) by {
        reveal_strlit("ArrowLeft"); reveal_strlit("m"); assert("ArrowLeft"@.len() == 9 && "m"@.len() == 1);
    }
    assert("ArrowLeft"@ != "N"@) by {
        reveal_strlit("ArrowLeft"); reveal_strlit("N"); assert("ArrowLeft"@.len() == 9 && "N"@.len() == 1);
    }
    assert("ArrowLeft"@ != "n"@) by {
        reveal_strlit("ArrowLeft"); reveal_strlit("n"); assert("ArrowLeft"@.len() == 9 && "n"@.len() == 1);
    }
    assert("ArrowLeft"@ != "O"@) by {
        reveal_strlit("ArrowLeft"); reveal_strlit("O"); assert("ArrowLeft"@.len() == 9 && "O"@.len() == 1);
    }
    assert("ArrowLeft"@ != "o"@) by {
        reveal_strlit("ArrowLeft"); reveal_strlit("o"); assert("ArrowLeft"@.len() == 9 && "o"@.len() == 1);
    }
    assert("ArrowLeft"@ != "P"@) by {
        reveal_strlit("ArrowLeft"); reveal_strlit("P"); assert("ArrowLeft"@.len() == 9 && "P"@.len() == 1);
    }
    assert("ArrowLeft"@ != "p"@) by {
        reveal_strlit("ArrowLeft"); reveal_strlit("p"); assert("ArrowLeft"@.len() == 9 && "p"@.len() == 1);
    }
    assert("ArrowLeft"@ != "Q"@) by {
        reveal_strlit("ArrowLeft"); reveal_strlit("Q"); assert("ArrowLeft"@.len() == 9 && "Q"@.len() == 1);
    }
    assert("ArrowLeft"@ != "q"@) by {
        reveal_strlit("ArrowLeft"); reveal_strlit("q"); assert("ArrowLeft"@.len() == 9 && "q"@.len() == 1);
    }
    assert("ArrowLeft"@ != "R"@) by {
        reveal_strlit("ArrowLeft"); reveal_strlit("R"); assert("ArrowLeft"@.len() == 9 && "R"@.len() == 1);
    }
    assert("ArrowLeft"@ != "r"@) by {
        reveal_strlit("ArrowLeft"); reveal_strlit("r"); assert("ArrowLeft"@.len() == 9 && "r"@.len() == 1);
    }
    assert("ArrowLeft"@ != "S"@) by {
        reveal_strlit("ArrowLeft"); reveal_strlit("S"); assert("ArrowLeft"@.len() == 9 && "S"@.len() == 1);
    }
    assert("ArrowLeft"@ != "s"@) by {
        reveal_strlit("ArrowLeft"); reveal_strlit("s"); assert("ArrowLeft"@.len() == 9 && "s"@.len() == 1);
    }
    assert("ArrowLeft"@ != "T"@) by {
        reveal_strlit("ArrowLeft"); reveal_strlit("T"); assert("ArrowLeft"@.len() == 9 && "T"@.len() == 1);
    }
    assert("ArrowLeft"@ != "t"@) by {
        reveal_strlit("ArrowLeft"); reveal_strlit("t"); assert("ArrowLeft"@.len() == 9 && "t"@.len() == 1);
    }
    assert("ArrowLeft"@ != "U"@) by {
        reveal_strlit("ArrowLeft"); reveal_strlit("U"); assert("ArrowLeft"@.len() == 9 && "U"@.len() == 1);
    }
    assert("ArrowLeft"@ != "u"@) by {
        reveal_strlit("ArrowLeft"); reveal_strlit("u"); assert("ArrowLeft"@.len() == 9 && "u"@.len() == 1);
    }
    assert("ArrowLeft"@ != "V"@) by {
        reveal_strlit("ArrowLeft"); reveal_strlit("V"); assert("ArrowLeft"@.len() == 9 && "V"@.len() == 1);
    }
    assert("ArrowLeft"@ != "v"@) by {
        reveal_strlit("ArrowLeft"); reveal_strlit("v"); assert("ArrowLeft"@.len() == 9 && "v"@.len() == 1);
    }
    assert("ArrowLeft"@ != "W"@) by {
        reveal_strlit("ArrowLeft"); reveal_strlit("W"); assert("ArrowLeft"@.len() == 9 && "W"@.len() == 1);
    }
    assert("ArrowLeft"@ != "w"@) by {
        reveal_strlit("ArrowLeft"); reveal_strlit("w"); assert("ArrowLeft"@.len() == 9 && "w"@.len() == 1);
    }
    assert("ArrowLeft"@ != "X"@) by {
        reveal_strlit("ArrowLeft"); reveal_strlit("X"); assert("ArrowLeft"@.len() == 9 && "X"@.len() == 1);
    }
    assert("ArrowLeft"@ != "x"@) by {
        reveal_strlit("ArrowLeft"); reveal_strlit("x"); assert("ArrowLeft"@.len() == 9 && "x"@.len() == 1);
    }
    assert("ArrowLeft"@ != "Y"@) by {
        reveal_strlit("ArrowLeft"); reveal_strlit("Y"); assert("ArrowLeft"@.len() == 9 && "Y"@.len() == 1);
    }
    assert("ArrowLeft"@ != "y"@) by {
        reveal_strlit("ArrowLeft"); reveal_strlit("y"); assert("ArrowLeft"@.len() == 9 && "y"@.len() == 1);
    }
    assert("ArrowLeft"@ != "Z"@) by {
        reveal_strlit("ArrowLeft"); reveal_strlit("Z"); assert("ArrowLeft"@.len() == 9 && "Z"@.len() == 1);
    }
    assert("ArrowLeft"@ != "z"@) by {
        reveal_strlit("ArrowLeft"); reveal_strlit("z"); assert("ArrowLeft"@.len() == 9 && "z"@.len() == 1);
    }
    assert("ArrowLeft"@ != "Escape"@) by {
        reveal_strlit("ArrowLeft"); reveal_strlit("Escape"); assert("ArrowLeft"@.len() == 9 && "Escape"@.len() == 6);
    }
    assert("ArrowLeft"@ != "F1"@) by {
        reveal_strlit("ArrowLeft"); reveal_strlit("F1"); assert("ArrowLeft"@.len() == 9 && "F1"@.len() == 2);
    }
    assert("ArrowLeft"@ != "F2"@) by {
        reveal_strlit("ArrowLeft"); reveal_strlit("F2"); assert("ArrowLeft"@.len() == 9 && "F2"@.len() == 2);
    }
    assert("ArrowLeft"@ != "F3"@) by {
        reveal_strlit("ArrowLeft"); reveal_strlit("F3"); assert("ArrowLeft"@.len() == 9 && "F3"@.len() == 2);
    }
    assert("ArrowLeft"@ != "F4"@) by {
        reveal_strlit("ArrowLeft"); reveal_strlit("F4"); assert("ArrowLeft"@.len() == 9 && "F4"@.len() == 2);
    }
    assert("ArrowLeft"@ != "F5"@) by {
        reveal_strlit("ArrowLeft"); reveal_strlit("F5"); assert("ArrowLeft"@.len() == 9 && "F5"@.len() == 2);
    }
    assert("ArrowLeft"@ != "F6"@) by {
        reveal_strlit("ArrowLeft"); reveal_strlit("F6"); assert("ArrowLeft"@.len() == 9 && "F6"@.len() == 2);
    }
    assert("ArrowLeft"@ != "F7"@) by {
        reveal_strlit("ArrowLeft"); reveal_strlit("F7"); assert("ArrowLeft"@.len() == 9 && "F7"@.len() == 2);
    }
    assert("ArrowLeft"@ != "F8"@) by {
        reveal_strlit("ArrowLeft"); reveal_strlit("F8"); assert("ArrowLeft"@.len() == 9 && "F8"@.len() == 2);
    }
    assert("ArrowLeft"@ != "F9"@) by {
        reveal_strlit("ArrowLeft"); reveal_strlit("F9"); assert("ArrowLeft"@.len() == 9 && "F9"@.len() == 2);
    }
    assert("ArrowLeft"@ != "F10"@) by {
        reveal_strlit("ArrowLeft"); reveal_strlit("F10"); assert("ArrowLeft"@.len() == 9 && "F10"@.len() == 3);
    }
    assert("ArrowLeft"@ != "F11"@) by {
        reveal_strlit("ArrowLeft"); reveal_strlit("F11"); assert("ArrowLeft"@.len() == 9 && "F11"@.len() == 3);
    }
    assert("ArrowLeft"@ != "F12"@) by {
        reveal_strlit("ArrowLeft"); reveal_strlit("F12"); assert("ArrowLeft"@.len() == 9 && "F12"@.len() == 3);
    }
    assert("ArrowLeft"@ != "F13"@) by {
        reveal_strlit("ArrowLeft"); reveal_strlit("F13"); assert("ArrowLeft"@.len() == 9 && "F13"@.len() == 3);
    }
    assert("ArrowLeft"@ != "F14"@) by {
        reveal_strlit("ArrowLeft"); reveal_strlit("F14"); assert("ArrowLeft"@.len() == 9 && "F14"@.len() == 3);
    }
    assert("ArrowLeft"@ != "F15"@) by {
        reveal_strlit("ArrowLeft"); reveal_strlit("F15"); assert("ArrowLeft"@.len() == 9 && "F15"@.len() == 3);
    }
    assert("ArrowLeft"@ != "F16"@) by {
        reveal_strlit("ArrowLeft"); reveal_strlit("F16"); assert("ArrowLeft"@.len() == 9 && "F16"@.len() == 3);
    }
    assert("ArrowLeft"@ != "F17"@) by {
        reveal_strlit("ArrowLeft"); reveal_strlit("F17"); assert("ArrowLeft"@.len() == 9 && "F17"@.len() == 3);
    }
    assert("ArrowLeft"@ != "F18"@) by {
        reveal_strlit("ArrowLeft"); reveal_strlit("F18"); assert("ArrowLeft"@.len() == 9 && "F18"@.len() == 3);
    }
    assert("ArrowLeft"@ != "F19"@) by {
        reveal_strlit("ArrowLeft"); reveal_strlit("F19"); assert("ArrowLeft"@.len() == 9 && "F19"@.len() == 3);
    }
    assert("ArrowLeft"@ != "F20"@) by {
        reveal_strlit("ArrowLeft"); reveal_strlit("F20"); assert("ArrowLeft"@.len() == 9 && "F20"@.len() == 3);
    }
    assert("ArrowLeft"@ != "F21"@) by {
        reveal_strlit("ArrowLeft"); reveal_strlit("F21"); assert("ArrowLeft"@.len() == 9 && "F21"@.len() == 3);
    }
    assert("ArrowLeft"@ != "F22"@) by {
        reveal_strlit("ArrowLeft"); reveal_strlit("F22"); assert("ArrowLeft"@.len() == 9 && "F22"@.len() == 3);
    }
    assert("ArrowLeft"@ != "F23"@) by {
        reveal_strlit("ArrowLeft"); reveal_strlit("F23"); assert("ArrowLeft"@.len() == 9 && "F23"@.len() == 3);
    }
    assert("ArrowLeft"@ != "F24"@) by {
        reveal_strlit("ArrowLeft"); reveal_strlit("F24"); assert("ArrowLeft"@.len() == 9 && "F24"@.len() == 3);
    }
    assert("ArrowLeft"@ != "Snapshot"@) by {
        reveal_strlit("ArrowLeft"); reveal_strlit("Snapshot"); assert("ArrowLeft"@.len() == 9 && "Snapshot"@.len() == 8);
    }
    assert("ArrowLeft"@ != "Scroll"@) by {
        reveal_strlit("ArrowLeft"); reveal_strlit("Scroll"); assert("ArrowLeft"@.len() == 9 && "Scroll"@.len() == 6);
    }
    assert("ArrowLeft"@ != "Pause"@) by {
        reveal_strlit("ArrowLeft"); reveal_strlit("Pause"); assert("ArrowLeft"@.len() == 9 && "Pause"@.len() == 5);
    }
    assert("ArrowLeft"@ != "Insert"@) by {
        reveal_strlit("ArrowLeft"); reveal_strlit("Insert"); assert("ArrowLeft"@.len() == 9 && "Insert"@.len() == 6);
    }
    assert("ArrowLeft"@ != "Home"@) by {
        reveal_strlit("ArrowLeft"); reveal_strlit("Home"); assert("ArrowLeft"@.len() == 9 && "Home"@.len() == 4);
    }
    assert("ArrowLeft"@ != "Delete"@) by {
        reveal_strlit("ArrowLeft"); reveal_strlit("Delete"); assert("ArrowLeft"@.len() == 9 && "Delete"@.len() == 6);
    }
    assert("ArrowLeft"@ != "End"@) by {
        reveal_strlit("ArrowLeft"); reveal_strlit("End"); assert("ArrowLeft"@.len() == 9 && "End"@.len() == 3);
    }
    assert("ArrowLeft"@ != "PageDown"@) by {
        reveal_strlit("ArrowLeft"); reveal_strlit("PageDown"); assert("ArrowLeft"@.len() == 9 && "PageDown"@.len() == 8);
    }
    assert("ArrowLeft"@ != "PageUp"@) by {
        reveal_strlit("ArrowLeft"); reveal_strlit("PageUp"); assert("ArrowLeft"@.len() == 9 && "PageUp"@.len() == 6);
    }
}

/// The browser's right arrow is the right key.
pub proof fn lemma_web_arrow_right()
    ensures
        web_key("ArrowRight"@) == Key::Right,
{
    assert("ArrowRight"@ != "1"@) by {
        reveal_strlit("ArrowRight"); reveal_strlit("1"); assert("ArrowRight"@.len() == 10 && "1"@.len() == 1);
    }
    assert("ArrowRight"@ != "2"@) by {
        reveal_strlit("ArrowRight"); reveal_strlit("2"); assert("ArrowRight"@.len() == 10 && "2"@.len() == 1);
    }
    assert("ArrowRight"@ != "3"@) by {
        reveal_strlit("ArrowRight"); reveal_strlit("3"); assert("ArrowRight"@.len() == 10 && "3"@.len() == 1);
    }
    assert("ArrowRight"@ != "4"@) by {
        reveal_strlit("ArrowRight"); reveal_strlit("4"); assert("ArrowRight"@.len() == 10 && "4"@.len() == 1);
    }
    assert("ArrowRight"@ != "5"@) by {
        reveal_strlit("ArrowRight"); reveal_strlit("5"); assert("ArrowRight"@.len() == 10 && "5"@.len() == 1);
    }
    assert("ArrowRight"@ != "6"@) by {
        reveal_strlit("ArrowRight"); reveal_strlit("6"); assert("ArrowRight"@.len() == 10 && "6"@.len() == 1);
    }
    assert("ArrowRight"@ != "7"@) by {
        reveal_strlit("ArrowRight"); reveal_strlit("7"); assert("ArrowRight"@.len() == 10 && "7"@.len() == 1);
    }
    assert("ArrowRight"@ != "8"@) by {
        reveal_strlit("ArrowRight"); reveal_strlit("8"); assert("ArrowRight"@.len() == 10 && "8"@.len() == 1);
    }
    assert("ArrowRight"@ != "9"@) by {
        reveal_strlit("ArrowRight"); reveal_strlit("9"); assert("ArrowRight"@.len() == 10 && "9"@.len() == 1);
    }
    assert("ArrowRight"@ != "0"@) by {
        reveal_strlit("ArrowRight"); reveal_strlit("0"); assert("ArrowRight"@.len() == 10 && "0"@.len() == 1);
    }
    assert("ArrowRight"@ != "A"@) by {
        reveal_strlit("ArrowRight"); reveal_strlit("A"); assert("ArrowRight"@.len() == 10 && "A"@.len() == 1);
    }
    assert("ArrowRight"@ != "a"@) by {
        reveal_strlit("ArrowRight"); reveal_strlit("a"); assert("ArrowRight"@.len() == 10 && "a"@.len() == 1);
    }
    assert("ArrowRight"@ != "B"@) by {
        reveal_strlit("ArrowRight"); reveal_strlit("B"); assert("ArrowRight"@.len() == 10 && "B"@.len() == 1);
    }
    assert("ArrowRight"@ != "b"@) by {
        reveal_strlit("ArrowRight"); reveal_strlit("b"); assert("ArrowRight"@.len() == 10 && "b"@.len() == 1);
    }
    assert("ArrowRight"@ != "C"@) by {
        reveal_strlit("ArrowRight"); reveal_strlit("C"); assert("ArrowRight"@.len() == 10 && "C"@.len() == 1);
    }
    assert("ArrowRight"@ != "c"@) by {
        reveal_strlit("ArrowRight"); reveal_strlit("c"); assert("ArrowRight"@.len() == 10 && "c"@.len() == 1);
    }
    assert("ArrowRight"@ != "D"@) by {
        reveal_strlit("ArrowRight"); reveal_strlit("D"); assert("ArrowRight"@.len() == 10 && "D"@.len() == 1);
    }
    assert("ArrowRight"@ != "d"@) by {
        reveal_strlit("ArrowRight"); reveal_strlit("d"); assert("ArrowRight"@.len() == 10 && "d"@.len() == 1);
    }
    assert("ArrowRight"@ != "E"@) by {
        reveal_strlit("ArrowRight"); reveal_strlit("E"); assert("ArrowRight"@.len() == 10 && "E"@.len() == 1);
    }
    assert("ArrowRight"@ != "e"@) by {
        reveal_strlit("ArrowRight"); reveal_strlit("e"); assert("ArrowRight"@.len() == 10 && "e"@.len() == 1);
    }
    assert("ArrowRight"@ != "F"@) by {
        reveal_strlit("ArrowRight"); reveal_strlit("F"); assert("ArrowRight"@.len() == 10 && "F"@.len() == 1);
    }
    assert("ArrowRight"@ != "f"@) by {
        reveal_strlit("ArrowRight"); reveal_strlit("f"); assert("ArrowRight"@.len() == 10 && "f"@.len() == 1);
    }
    assert("ArrowRight"@ != "G"@) by {
        reveal_strlit("ArrowRight"); reveal_strlit("G"); assert("ArrowRight"@.len() == 10 && "G"@.len() == 1);
    }
    assert("ArrowRight"@ != "g"@) by {
        reveal_strlit("ArrowRight"); reveal_strlit("g"); assert("ArrowRight"@.len() == 10 && "g"@.len() == 1);
    }
    assert("ArrowRight"@ != "H"@) by {
        reveal_strlit("ArrowRight"); reveal_strlit("H"); assert("ArrowRight"@.len() == 10 && "H"@.len() == 1);
    }
    assert("ArrowRight"@ != "h"@) by {
        reveal_strlit("ArrowRight"); reveal_strlit("h"); assert("ArrowRight"@.len() == 10 && "h"@.len() == 1);
    }
    assert("ArrowRight"@ != "I"@) by {
        reveal_strlit("ArrowRight"); reveal_strlit("I"); assert("ArrowRight"@.len() == 10 && "I"@.len() == 1);
    }
    assert("ArrowRight"@ != "i"@) by {
        reveal_strlit("ArrowRight"); reveal_strlit("i"); assert("ArrowRight"@.len() == 10 && "i"@.len() == 1);
    }
    assert("ArrowRight"@ != "J"@) by {
        reveal_strlit("ArrowRight"); reveal_strlit("J"); assert("ArrowRight"@.len() == 10 && "J"@.len() == 1);
    }
    assert("ArrowRight"@ != "j"@) by {
        reveal_strlit("ArrowRight"); reveal_strlit("j"); assert("ArrowRight"@.len() == 10 && "j"@.len() == 1);
    }
    assert("ArrowRight"@ != "K"@) by {
        reveal_strlit("ArrowRight"); reveal_strlit("K"); assert("ArrowRight"@.len() == 10 && "K"@.len() == 1);
    }
    assert("ArrowRight"@ != "k"@) by {
        reveal_strlit("ArrowRight"); reveal_strlit("k"); assert("ArrowRight"@.len() == 10 && "k"@.len() == 1);
    }
    assert("ArrowRight"@ != "L"@) by {
        reveal_strlit("ArrowRight"); reveal_strlit("L"); assert("ArrowRight"@.len() == 10 && "L"@.len() == 1);
    }
    assert("ArrowRight"@ != "l"@) by {
        reveal_strlit("ArrowRight"); reveal_strlit("l"); assert("ArrowRight"@.len() == 10 && "l"@.len() == 1);
    }
    assert("ArrowRight"@ != "M"@) by {
        reveal_strlit("ArrowRight"); reveal_strlit("M"); assert("ArrowRight"@.len() == 10 && "M"@.len() == 1);
    }
    assert("ArrowRight"@ != "m"@) by {
        reveal_strlit("ArrowRight"); reveal_strlit("m"); assert("ArrowRight"@.len() == 10 && "m"@.len() == 1);
    }
    assert("ArrowRight"@ != "N"@) by {
        reveal_strlit("ArrowRight"); reveal_strlit("N"); assert("ArrowRight"@.len() == 10 && "N"@.len() == 1);
    }
    assert("ArrowRight"@ != "n"@) by {
        reveal_strlit("ArrowRight"); reveal_strlit("n"); assert("ArrowRight"@.len() == 10 && "n"@.len() == 1);
    }
    assert("ArrowRight"@ != "O"@) by {
        reveal_strlit("ArrowRight"); reveal_strlit("O"); assert("ArrowRight"@.len() == 10 && "O"@.len() == 1);
    }
    assert("ArrowRight"@ != "o"@) by {
        reveal_strlit("ArrowRight"); reveal_strlit("o"); assert("ArrowRight"@.len() == 10 && "o"@.len() == 1);
    }
    assert("ArrowRight"@ != "P"@) by {
        reveal_strlit("ArrowRight"); reveal_strlit("P"); assert("ArrowRight"@.len() == 10 && "P"@.len() == 1);
    }
    assert("ArrowRight"@ != "p"@) by {
        reveal_strlit("ArrowRight"); reveal_strlit("p"); assert("ArrowRight"@.len() == 10 && "p"@.len() == 1);
    }
    assert("ArrowRight"@ != "Q"@) by {
        reveal_strlit("ArrowRight"); reveal_strlit("Q"); assert("ArrowRight"@.len() == 10 && "Q"@.len() == 1);
    }
    assert("ArrowRight"@ != "q"@) by {
        reveal_strlit("ArrowRight"); reveal_strlit("q"); assert("ArrowRight"@.len() == 10 && "q"@.len() == 1);
    }
    assert("ArrowRight"@ != "R"@) by {
        reveal_strlit("ArrowRight"); reveal_strlit("R"); assert("ArrowRight"@.len() == 10 && "R"@.len() == 1);
    }
    assert("ArrowRight"@ != "r"@) by {
        reveal_strlit("ArrowRight"); reveal_strlit("r"); assert("ArrowRight"@.len() == 10 && "r"@.len() == 1);
    }
    assert("ArrowRight"@ != "S"@) by {
        reveal_strlit("ArrowRight"); reveal_strlit("S"); assert("ArrowRight"@.len() == 10 && "S"@.len() == 1);
    }
    assert("ArrowRight"@ != "s"@) by {
        reveal_strlit("ArrowRight"); reveal_strlit("s"); assert("ArrowRight"@.len() == 10 && "s"@.len() == 1);
    }
    assert("ArrowRight"@ != "T"@) by {
        reveal_strlit("ArrowRight"); reveal_strlit("T"); assert("ArrowRight"@.len() == 10 && "T"@.len() == 1);
    }
    assert("ArrowRight"@ != "t"@) by {
        reveal_strlit("ArrowRight"); reveal_strlit("t"); assert("ArrowRight"@.len() == 10 && "t"@.len() == 1);
    }
    assert("ArrowRight"@ != "U"@) by {
        reveal_strlit("ArrowRight"); reveal_strlit("U"); assert("ArrowRight"@.len() == 10 && "U"@.len() == 1);
    }
    assert("ArrowRight"@ != "u"@) by {
        reveal_strlit("ArrowRight"); reveal_strlit("u"); assert("ArrowRight"@.len() == 10 && "u"@.len() == 1);
    }
    assert("ArrowRight"@ != "V"@) by {
        reveal_strlit("ArrowRight"); reveal_strlit("V"); assert("ArrowRight"@.len() == 10 && "V"@.len() == 1);
    }
    assert("ArrowRight"@ != "v"@) by {
        reveal_strlit("ArrowRight"); reveal_strlit("v"); assert("ArrowRight"@.len() == 10 && "v"@.len() == 1);
    }
    assert("ArrowRight"@ != "W"@) by {
        reveal_strlit("ArrowRight"); reveal_strlit("W"); assert("ArrowRight"@.len() == 10 && "W"@.len() == 1);
    }
    assert("ArrowRight"@ != "w"@) by {
        reveal_strlit("ArrowRight"); reveal_strlit("w"); assert("ArrowRight"@.len() == 10 && "w"@.len() == 1);
    }
    assert("ArrowRight"@ != "X"@) by {
        reveal_strlit("ArrowRight"); reveal_strlit("X"); assert("ArrowRight"@.len() == 10 && "X"@.len() == 1);
    }
    assert("ArrowRight"@ != "x"@) by {
        reveal_strlit("ArrowRight"); reveal_strlit("x"); assert("ArrowRight"@.len() == 10 && "x"@.len() == 1);
    }
    assert("ArrowRight"@ != "Y"@) by {
        reveal_strlit("ArrowRight"); reveal_strlit("Y"); assert("ArrowRight"@.len() == 10 && "Y"@.len() == 1);
    }
    assert("ArrowRight"@ != "y"@) by {
        reveal_strlit("ArrowRight"); reveal_strlit("y"); assert("ArrowRight"@.len() == 10 && "y"@.len() == 1);
    }
    assert("ArrowRight"@ != "Z"@) by {
        reveal_strlit("ArrowRight"); reveal_strlit("Z"); assert("ArrowRight"@.len() == 10 && "Z"@.len() == 1);
    }
    assert("ArrowRight"@ != "z"@) by {
        reveal_strlit("ArrowRight"); reveal_strlit("z"); assert("ArrowRight"@.len() == 10 && "z"@.len() == 1);
    }
    assert("ArrowRight"@ != "Escape"@) by {
        reveal_strlit("ArrowRight"); reveal_strlit("Escape"); assert("ArrowRight"@.len() == 10 && "Escape"@.len() == 6);
    }
    assert("ArrowRight"@ != "F1"@) by {
        reveal_strlit("ArrowRight"); reveal_strlit("F1"); assert("ArrowRight"@.len() == 10 && "F1"@.len() == 2);
    }
    assert("ArrowRight"@ != "F2"@) by {
        reveal_strlit("ArrowRight"); reveal_strlit("F2"); assert("ArrowRight"@.len() == 10 && "F2"@.len() == 2);
    }
    assert("ArrowRight"@ != "F3"@) by {
        reveal_strlit("ArrowRight"); reveal_strlit("F3"); assert("ArrowRight"@.len() == 10 && "F3"@.len() == 2);
    }
    assert("ArrowRight"@ != "F4"@) by {
        reveal_strlit("ArrowRight"); reveal_strlit("F4"); assert("ArrowRight"@.len() == 10 && "F4"@.len() == 2);
    }
    assert("ArrowRight"@ != "F5"@) by {
        reveal_strlit("ArrowRight"); reveal_strlit("F5"); assert("ArrowRight"@.len() == 10 && "F5"@.len() == 2);
    }
    assert("ArrowRight"@ != "F6"@) by {
        reveal_strlit("ArrowRight"); reveal_strlit("F6"); assert("ArrowRight"@.len() == 10 && "F6"@.len() == 2);
    }
    assert("ArrowRight"@ != "F7"@) by {
        reveal_strlit("ArrowRight"); reveal_strlit("F7"); assert("ArrowRight"@.len() == 10 && "F7"@.len() == 2);
    }
    assert("ArrowRight"@ != "F8"@) by {
        reveal_strlit("ArrowRight"); reveal_strlit("F8"); assert("ArrowRight"@.len() == 10 && "F8"@.len() == 2);
    }
    assert("ArrowRight"@ != "F9"@) by {
        reveal_strlit("ArrowRight"); reveal_strlit("F9"); assert("ArrowRight"@.len() == 10 && "F9"@.len() == 2);
    }
    assert("ArrowRight"@ != "F10"@) by {
        reveal_strlit("ArrowRight"); reveal_strlit("F10"); assert("ArrowRight"@.len() == 10 && "F10"@.len() == 3);
    }
    assert("ArrowRight"@ != "F11"@) by {
        reveal_strlit("ArrowRight"); reveal_strlit("F11"); assert("ArrowRight"@.len() == 10 && "F11"@.len() == 3);
    }
    assert("ArrowRight"@ != "F12"@) by {
        reveal_strlit("ArrowRight"); reveal_strlit("F12"); assert("ArrowRight"@.len() == 10 && "F12"@.len() == 3);
    }
    assert("ArrowRight"@ != "F13"@) by {
        reveal_strlit("ArrowRight"); reveal_strlit("F13"); assert("ArrowRight"@.len() == 10 && "F13"@.len() == 3);
    }
    assert("ArrowRight"@ != "F14"@) by {
        reveal_strlit("ArrowRight"); reveal_strlit("F14"); assert("ArrowRight"@.len() == 10 && "F14"@.len() == 3);
    }
    assert("ArrowRight"@ != "F15"@) by {
        reveal_strlit("ArrowRight"); reveal_strlit("F15"); assert("ArrowRight"@.len() == 10 && "F15"@.len() == 3);
    }
    assert("ArrowRight"@ != "F16"@) by {
        reveal_strlit("ArrowRight"); reveal_strlit("F16"); assert("ArrowRight"@.len() == 10 && "F16"@.len() == 3);
    }
    assert("ArrowRight"@ != "F17"@) by {
        reveal_strlit("ArrowRight"); reveal_strlit("F17"); assert("ArrowRight"@.len() == 10 && "F17"@.len() == 3);
    }
    assert("ArrowRight"@ != "F18"@) by {
        reveal_strlit("ArrowRight"); reveal_strlit("F18"); assert("ArrowRight"@.len() == 10 && "F18"@.len() == 3);
    }
    assert("ArrowRight"@ != "F19"@) by {
        reveal_strlit("ArrowRight"); reveal_strlit("F19"); assert("ArrowRight"@.len() == 10 && "F19"@.len() == 3);
    }
    assert("ArrowRight"@ != "F20"@) by {
        reveal_strlit("ArrowRight"); reveal_strlit("F20"); assert("ArrowRight"@.len() == 10 && "F20"@.len() == 3);
    }
    assert("ArrowRight"@ != "F21"@) by {
        reveal_strlit("ArrowRight"); reveal_strlit("F21"); assert("ArrowRight"@.len() == 10 && "F21"@.len() == 3);
    }
    assert("ArrowRight"@ != "F22"@) by {
        reveal_strlit("ArrowRight"); reveal_strlit("F22"); assert("ArrowRight"@.len() == 10 && "F22"@.len() == 3);
    }
    assert("ArrowRight"@ != "F23"@) by {
        reveal_strlit("ArrowRight"); reveal_strlit("F23"); assert("ArrowRight"@.len() == 10 && "F23"@.len() == 3);
    }
    assert("ArrowRight"@ != "F24"@) by {
        reveal_strlit("ArrowRight"); reveal_strlit("F24"); assert("ArrowRight"@.len() == 10 && "F24"@.len() == 3);
    }
    assert("ArrowRight"@ != "Snapshot"@) by {
        reveal_strlit("ArrowRight"); reveal_strlit("Snapshot"); assert("ArrowRight"@.len() == 10 && "Snapshot"@.len() == 8);
    }
    assert("ArrowRight"@ != "Scroll"@) by {
        reveal_strlit("ArrowRight"); reveal_strlit("Scroll"); assert("ArrowRight"@.len() == 10 && "Scroll"@.len() == 6);
    }
    assert("ArrowRight"@ != "Pause"@) by {
        reveal_strlit("ArrowRight"); reveal_strlit("Pause"); assert("ArrowRight"@.len() == 10 && "Pause"@.len() == 5);
    }
    assert("ArrowRight"@ != "Insert"@) by {
        reveal_strlit("ArrowRight"); reveal_strlit("Insert"); assert("ArrowRight"@.len() == 10 && "Insert"@.len() == 6);
    }
    assert("ArrowRight"@ != "Home"@) by {
        reveal_strlit("ArrowRight"); reveal_strlit("Home"); assert("ArrowRight"@.len() == 10 && "Home"@.len() == 4);
    }
    assert("ArrowRight"@ != "Delete"@) by {
        reveal_strlit("ArrowRight"); reveal_strlit("Delete"); assert("ArrowRight"@.len() == 10 && "Delete"@.len() == 6);
    }
    assert("ArrowRight"@ != "End"@) by {
        reveal_strlit("ArrowRight"); reveal_strlit("End"); assert("ArrowRight"@.len() == 10 && "End"@.len() == 3);
    }
    assert("ArrowRight"@ != "PageDown"@) by {
        reveal_strlit("ArrowRight"); reveal_strlit("PageDown"); assert("ArrowRight"@.len() == 10 && "PageDown"@.len() == 8);
    }
    assert("ArrowRight"@ != "PageUp"@) by {
        reveal_strlit("ArrowRight"); reveal_strlit("PageUp"); assert("ArrowRight"@.len() == 10 && "PageUp"@.len() == 6);
    }
    assert("ArrowRight"@ != "ArrowLeft"@) by {
        reveal_strlit("ArrowRight"); reveal_strlit("ArrowLeft"); assert("ArrowRight"@.len() == 10 && "ArrowLeft"@.len() == 9);
    }
    assert("ArrowRight"@ != "ArrowUp"@) by {
        reveal_strlit("ArrowRight"); reveal_strlit("ArrowUp"); assert("ArrowRight"@.len() == 10 && "ArrowUp"@.len() == 7);
    }
}

/// Each arrow key's browser name gives the key of the same direction.
pub proof fn lemma_web_arrow_keys()
    ensures
        web_key("ArrowUp"@) == Key::Up,
        web_key("ArrowDown"@) == Key::Down,
        web_key("ArrowLeft"@) == Key::Left,
        web_key("ArrowRight"@) == Key::Right,
{
    lemma_web_arrow_up();
    lemma_web_arrow_down();
    lemma_web_arrow_left();
    lemma_web_arrow_right();
}

/// The key of a browser keyboard event, from the event's `key` field.
pub fn translate_web_key(key: &str) -> (r: Key)
    ensures
        r == web_key(key@),
{
    if str_eq(key, "1") {
        Key::Key1
    } else if str_eq(key, "2") {
        Key::Key2
    } else if str_eq(key, "3") {
        Key::Key3
    } else if str_eq(key, "4") {
        Key::Key4
    } else if str_eq(key, "5") {
        Key::Key5
    } else if str_eq(key, "6") {
        Key::Key6
    } else if str_eq(key, "7") {
        Key::Key7
    } else if str_eq(key, "8") {
        Key::Key8
    } else if str_eq(key, "9") {
        Key::Key9
    } else if str_eq(key, "0") {
        Key::Key0
    } else if str_eq(key, "A") || str_eq(key, "a") {
        Key::A
    } else if str_eq(key, "B") || str_eq(key, "b") {
        Key::B
    } else if str_eq(key, "C") || str_eq(key, "c") {
        Key::C
    } else if str_eq(key, "D") || str_eq(key, "d") {
        Key::D
    } else if str_eq(key, "E") || str_eq(key, "e") {
        Key::E
    } else if str_eq(key, "F") || str_eq(key, "f") {
        Key::F
    } else if str_eq(key, "G") || str_eq(key, "g") {
        Key::G
    } else if str_eq(key, "H") || str_eq(key, "h") {
        Key::H
    } else if str_eq(key, "I") || str_eq(key, "i") {
        Key::I
    } else if str_eq(key, "J") || str_eq(key, "j") {
        Key::J
    } else if str_eq(key, "K") || str_eq(key, "k") {
        Key::K
    } else if str_eq(key, "L") || str_eq(key, "l") {
        Key::L
    } else if str_eq(key, "M") || str_eq(key, "m") {
        Key::M
    } else if str_eq(key, "N") || str_eq(key, "n") {
        Key::N
    } else if str_eq(key, "O") || str_eq(key, "o") {
        Key::O
    } else if str_eq(key, "P") || str_eq(key, "p") {
        Key::P
    } else if str_eq(key, "Q") || str_eq(key, "q") {
        Key::Q
    } else if str_eq(key, "R") || str_eq(key, "r") {
        Key::R
    } else if str_eq(key, "S") || str_eq(key, "s") {
        Key::S
    } else if str_eq(key, "T") || str_eq(key, "t") {
        Key::T
    } else if str_eq(key, "U") || str_eq(key, "u") {
        Key::U
    } else if str_eq(key, "V") || str_eq(key, "v") {
        Key::V
    } else if str_eq(key, "W") || str_eq(key, "w") {
        Key::W
    } else if str_eq(key, "X") || str_eq(key, "x") {
        Key::X
    } else if str_eq(key, "Y") || str_eq(key, "y") {
        Key::Y
    } else if str_eq(key, "Z") || str_eq(key, "z") {
        Key::Z
    } else if str_eq(key, "Escape") {
        Key::Escape
    } else if str_eq(key, "F1") {
        Key::F1
    } else if str_eq(key, "F2") {
        Key::F2
    } else if str_eq(key, "F3") {
        Key::F3
    } else if str_eq(key, "F4") {
        Key::F4
    } else if str_eq(key, "F5") {
        Key::F5
    } else if str_eq(key, "F6") {
        Key::F6
    } else if str_eq(key, "F7") {
        Key::F7
    } else if str_eq(key, "F8") {
        Key::F8
    } else if str_eq(key, "F9") {
        Key::F9
    } else if str_eq(key, "F10") {
        Key::F10
    } else if str_eq(key, "F11") {
        Key::F11
    } else if str_eq(key, "F12") {
        Key::F12
    } else if str_eq(key, "F13") {
        Key::F13
    } else if str_eq(key, "F14") {
        Key::F14
    } else if str_eq(key, "F15") {
        Key::F15
    } else if str_eq(key, "F16") {
        Key::F16
    } else if str_eq(key, "F17") {
        Key::F17
    } else if str_eq(key, "F18") {
        Key::F18
    } else if str_eq(key, "F19") {
        Key::F19
    } else if str_eq(key, "F20") {
        Key::F20
    } else if str_eq(key, "F21") {
        Key::F21
    } else if str_eq(key, "F22") {
        Key::F22
    } else if str_eq(key, "F23") {
        Key::F23
    } else if str_eq(key, "F24") {
        Key::F24
    } else if str_eq(key, "Snapshot") {
        Key::Snapshot
    } else if str_eq(key, "Scroll") {
        Key::Scroll
    } else if str_eq(key, "Pause") {
        Key::Pause
    } else if str_eq(key, "Insert") {
        Key::Insert
    } else if str_eq(key, "Home") {
        Key::Home
    } else if str_eq(key, "Delete") {
        Key::Delete
    } else if str_eq(key, "End") {
        Key::End
    } else if str_eq(key, "PageDown") {
        Key::PageDown
    } else if str_eq(key, "PageUp") {
        Key::PageUp
    } else if str_eq(key, "ArrowLeft") {
        Key::Left
    } else if str_eq(key, "ArrowUp") {
        Key::Up
    } else if str_eq(key, "ArrowRight") {
        Key::Right
    } else if str_eq(key, "ArrowDown") {
        Key::Down
    } else if str_eq(key, "Back") {
        Key::Back
    } else if str_eq(key, "Return") {
        Key::Return
    } else if str_eq(key, " ") {
        Key::Space
    } else if str_eq(key, "Compose") {
        Key::Compose
    } else if str_eq(key, "Caret") {
        Key::Caret
    } else if str_eq(key, "Numlock") {
        Key::Numlock
    } else if str_eq(key, "Numpad0") {
        Key::Numpad0
    } else if str_eq(key, "Numpad1") {
        Key::Numpad1
    } else if str_eq(key, "Numpad2") {
        Key::Numpad2
    } else if str_eq(key, "Numpad3") {
        Key::Numpad3
    } else if str_eq(key, "Numpad4") {
        Key::Numpad4
    } else if str_eq(key, "Numpad5") {
        Key::Numpad5
    } else if str_eq(key, "Numpad6") {
        Key::Numpad6
    } else if str_eq(key, "Numpad7") {
        Key::Numpad7
    } else if str_eq(key, "Numpad8") {
        Key::Numpad8
    } else if str_eq(key, "Numpad9") {
        Key::Numpad9
    } else if str_eq(key, "AbntC1") {
        Key::AbntC1
    } else if str_eq(key, "AbntC2") {
        Key::AbntC2
    } else if str_eq(key, "+") {
        Key::Add
    } else if str_eq(key, "'") {
        Key::Apostrophe
    } else if str_eq(key, "Apps") {
        Key::Apps
    } else if str_eq(key, "At") {
        Key::At
    } else if str_eq(key, "Ax") {
        Key::Ax
    } else if str_eq(key, "\\") {
        Key::Backslash
    } else if str_eq(key, "Calculator") {
        Key::Calculator
    } else if str_eq(key, "Capital") {
        Key::Capital
    } else if str_eq(key, ":") {
        Key::Colon
    } else if str_eq(key, ",") {
        Key::Comma
    } else if str_eq(key, "Convert") {
        Key::Convert
    } else if str_eq(key, "Decimal") {
        Key::Decimal
    } else if str_eq(key, "=") {
        Key::Equals
    } else if str_eq(key, "Grave") {
        Key::Grave
    } else if str_eq(key, "Kana") {
        Key::Kana
    } else if str_eq(key, "Kanji") {
        Key::Kanji
    } else if str_eq(key, "LAlt") {
        Key::LAlt
    } else if str_eq(key, "{") {
        Key::LBracket
    } else if str_eq(key, "LControl") {
        Key::LControl
    } else if str_eq(key, "LShift") {
        Key::LShift
    } else if str_eq(key, "LWin") {
        Key::LWin
    } else if str_eq(key, "Mail") {
        Key::Mail
    } else if str_eq(key, "MediaSelect") {
        Key::MediaSelect
    } else if str_eq(key, "MediaStop") {
        Key::MediaStop
    } else if str_eq(key, "-") {
        Key::Minus
    } else if str_eq(key, "*") {
        Key::Multiply
    } else if str_eq(key, "Mute") {
        Key::Mute
    } else if str_eq(key, "MyComputer") {
        Key::MyComputer
    } else if str_eq(key, "NavigateForward") {
        Key::NavigateForward
    } else if str_eq(key, "NavigateBackward") {
        Key::NavigateBackward
    } else if str_eq(key, "NextTrack") {
        Key::NextTrack
    } else if str_eq(key, "NoConvert") {
        Key::NoConvert
    } else if str_eq(key, "NumpadComma") {
        Key::NumpadComma
    } else if str_eq(key, "NumpadEnter") {
        Key::NumpadEnter
    } else if str_eq(key, "NumpadEquals") {
        Key::NumpadEquals
    } else if str_eq(key, "OEM102") {
        Key::OEM102
    } else if str_eq(key, ".") {
        Key::Period
    } else if str_eq(key, "PlayPause") {
        Key::PlayPause
    } else if str_eq(key, "Power") {
        Key::Power
    } else if str_eq(key, "PrevTrack") {
        Key::PrevTrack
    } else if str_eq(key, "RAlt") {
        Key::RAlt
    } else if str_eq(key, "}") {
        Key::RBracket
    } else if str_eq(key, "RControl") {
        Key::RControl
    } else if str_eq(key, "RShift") {
        Key::RShift
    } else if str_eq(key, "RWin") {
        Key::RWin
    } else if str_eq(key, ";") {
        Key::Semicolon
    } else if str_eq(key, "/") {
        Key::Slash
    } else if str_eq(key, "Sleep") {
        Key::Sleep
    } else if str_eq(key, "Stop") {
        Key::Stop
    } else if str_eq(key, "Sysrq") {
        Key::Sysrq
    } else if str_eq(key, "Tab") {
        Key::Tab
    } else if str_eq(key, "_") {
        Key::Underline
    } else if str_eq(key, "Unlabeled") {
        Key::Unlabeled
    } else if str_eq(key, "VolumeDown") {
        Key::VolumeDown
    } else if str_eq(key, "VolumeUp") {
        Key::VolumeUp
    } else if str_eq(key, "Wake") {
        Key::Wake
    } else if str_eq(key, "WebBack") {
        Key::WebBack
    } else if str_eq(key, "WebFavorites") {
        Key::WebFavorites
    } else if str_eq(key, "WebForward") {
        Key::WebForward
    } else if str_eq(key, "WebHome") {
        Key::WebHome
    } else if str_eq(key, "WebRefresh") {
        Key::WebRefresh
    } else if str_eq(key, "WebSearch") {
        Key::WebSearch
    } else if str_eq(key, "WebStop") {
        Key::WebStop
    } else if str_eq(key, "Yen") {
        Key::Yen
    } else if str_eq(key, "Copy") {
        Key::Copy
    } else if str_eq(key, "Paste") {
        Key::Paste
    } else if str_eq(key, "Cut") {
        Key::Cut
    } else {
        Key::Unknown
    }
}

} // verus!
