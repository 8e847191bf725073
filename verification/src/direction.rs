use vstd::prelude::*;
use vstd::string::StringSliceAdditionalSpecFns;

verus! {

/// One movement command decoded from an inbound text frame.
#[derive(Clone, Copy, Debug, PartialEq, Eq, Structural)]
pub enum MoveDirection {
    Up,
    Down,
    Left,
    Right,
    /// Any token outside the four movement words: a semantic no-op.
    Noop,
}

/// Distance one recognized movement command moves an entity along its axis.
pub const STEP: i64 = 10;

/// The UTF-8 bytes of the token `"up"`.
pub open spec fn token_up() -> Seq<u8> {
    seq!['u' as u8, 'p' as u8]
}

/// The UTF-8 bytes of the token `"down"`.
pub open spec fn token_down() -> Seq<u8> {
    seq!['d' as u8, 'o' as u8, 'w' as u8, 'n' as u8]
}

/// The UTF-8 bytes of the token `"left"`.
pub open spec fn token_left() -> Seq<u8> {
    seq!['l' as u8, 'e' as u8, 'f' as u8, 't' as u8]
}

/// The UTF-8 bytes of the token `"right"`.
pub open spec fn token_right() -> Seq<u8> {
    seq!['r' as u8, 'i' as u8, 'g' as u8, 'h' as u8, 't' as u8]
}

/// The total decoding of an inbound text frame (given as its UTF-8 bytes)
/// into a movement command: each of the four movement words maps to its
/// direction, and every other frame maps to the no-op direction.
pub open spec fn direction_of(frame: Seq<u8>) -> MoveDirection {
    if frame == token_up() {
        MoveDirection::Up
    } else if frame == token_down() {
        MoveDirection::Down
    } else if frame == token_left() {
        MoveDirection::Left
    } else if frame == token_right() {
        MoveDirection::Right
    } else {
        MoveDirection::Noop
    }
}

/// Delta one command applies along the x axis.
pub open spec fn delta_x(d: MoveDirection) -> int {
    match d {
        MoveDirection::Left => -(STEP as int),
        MoveDirection::Right => STEP as int,
        _ => 0,
    }
}

/// Delta one command applies along the y axis.
pub open spec fn delta_y(d: MoveDirection) -> int {
    match d {
        MoveDirection::Up => STEP as int,
        MoveDirection::Down => -(STEP as int),
        _ => 0,
    }
}

/// The four wire words encode, as UTF-8, exactly to the token byte
/// sequences the decoder recognizes.
pub proof fn lemma_token_bytes()
    ensures
        "up".spec_bytes() == token_up(),
        "down".spec_bytes() == token_down(),
        "left".spec_bytes() == token_left(),
        "right".spec_bytes() == token_right(),
{
    reveal_strlit("up");
    reveal_strlit("down");
    reveal_strlit("left");
    reveal_strlit("right");
    assert(vstd::string::is_ascii("up"));
    assert(vstd::string::is_ascii("down"));
    assert(vstd::string::is_ascii("left"));
    assert(vstd::string::is_ascii("right"));
    assert("up".spec_bytes() =~= token_up());
    assert("down".spec_bytes() =~= token_down());
    assert("left".spec_bytes() =~= token_left());
    assert("right".spec_bytes() =~= token_right());
}

/// Rendering a movement command and decoding the rendered token yields the
/// command again: the renderer and the decoder agree on the wire words.
pub proof fn lemma_rendered_token_decodes_back()
    ensures
        direction_of("up".spec_bytes()) == MoveDirection::Up,
        direction_of("down".spec_bytes()) == MoveDirection::Down,
        direction_of("left".spec_bytes()) == MoveDirection::Left,
        direction_of("right".spec_bytes()) == MoveDirection::Right,
{
    lemma_token_bytes();
    assert(token_down() != token_up());
    assert(token_left() != token_up());
    assert(token_left() != token_down());
    assert(token_right() != token_up());
    assert(token_right() != token_down());
    assert(token_right() != token_left());
}

impl MoveDirection {
    /// Decodes one inbound text frame into a movement command.
    pub fn from_token(value: &str) -> (r: MoveDirection)
        ensures
            r == direction_of(value.spec_bytes()),
    {
        let b = value.as_bytes();
        if b.len() == 2 && b[0] == 'u' as u8 && b[1] == 'p' as u8 {
            proof {
                assert(b@ =~= token_up());
            }
            MoveDirection::Up
        } else if b.len() == 4 && b[0] == 'd' as u8 && b[1] == 'o' as u8 && b[2] == 'w' as u8
            && b[3] == 'n' as u8 {
            proof {
                assert(b@ =~= token_down());
            }
            MoveDirection::Down
        } else if b.len() == 4 && b[0] == 'l' as u8 && b[1] == 'e' as u8 && b[2] == 'f' as u8
            && b[3] == 't' as u8 {
            proof {
                assert(b@ =~= token_left());
            }
            MoveDirection::Left
        } else if b.len() == 5 && b[0] == 'r' as u8 && b[1] == 'i' as u8 && b[2] == 'g' as u8
            && b[3] == 'h' as u8 && b[4] == 't' as u8 {
            proof {
                assert(b@ =~= token_right());
            }
            MoveDirection::Right
        } else {
            proof {
                assert(b@ != token_up());
                assert(b@ != token_down());
                assert(b@ != token_left());
                assert(b@ != token_right());
            }
            MoveDirection::Noop
        }
    }

    /// Renders one of the four movement commands back to its wire token.
    pub fn to_string(&self) -> (r: String)
        requires
            !(self is Noop),
        ensures
            self is Up ==> r@ == "up"@,
            self is Down ==> r@ == "down"@,
            self is Left ==> r@ == "left"@,
            self is Right ==> r@ == "right"@,
    {
        match self {
            MoveDirection::Up => "up".to_owned(),
            MoveDirection::Down => "down".to_owned(),
            MoveDirection::Left => "left".to_owned(),
            MoveDirection::Right => "right".to_owned(),
            MoveDirection::Noop => "".to_owned(),
        }
    }
}

} // verus!
