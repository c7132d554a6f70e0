use qube::cube::{FACES, TURNS};
use qube::{Face, Mod, Move};

const ALL_FACES: [Face; 6] =
    [Face::Front, Face::Back, Face::Right, Face::Left, Face::Up, Face::Down];

#[test]
fn opposite_pairs_the_faces_of_an_axis() {
    assert_eq!(Face::Front.opposite(), Face::Back);
    assert_eq!(Face::Back.opposite(), Face::Front);
    assert_eq!(Face::Right.opposite(), Face::Left);
    assert_eq!(Face::Left.opposite(), Face::Right);
    assert_eq!(Face::Up.opposite(), Face::Down);
    assert_eq!(Face::Down.opposite(), Face::Up);
}

#[test]
fn opposite_is_an_involution_without_fixed_points() {
    for face in ALL_FACES {
        assert_eq!(face.opposite().opposite(), face);
        assert_ne!(face.opposite(), face);
    }
}

#[test]
fn faces_have_their_letters() {
    assert_eq!(Face::Front.to_str(), "F");
    assert_eq!(Face::Back.to_str(), "B");
    assert_eq!(Face::Right.to_str(), "R");
    assert_eq!(Face::Left.to_str(), "L");
    assert_eq!(Face::Up.to_str(), "U");
    assert_eq!(Face::Down.to_str(), "D");
}

#[test]
fn turns_have_their_suffixes() {
    assert_eq!(Mod::Clockwise.to_str(), "");
    assert_eq!(Mod::CounterClockwise.to_str(), "'");
    assert_eq!(Mod::Double.to_str(), "2");
}

#[test]
fn moves_are_written_as_letter_and_suffix() {
    assert_eq!(Move { face: Face::Right, form: Mod::CounterClockwise }.to_string(), "R'");
    assert_eq!(Move { face: Face::Up, form: Mod::Double }.to_string(), "U2");
    assert_eq!(Move { face: Face::Front, form: Mod::Clockwise }.to_string(), "F");
}

#[test]
fn every_move_is_written_in_at_most_two_characters() {
    for face in ALL_FACES {
        for form in [Mod::Clockwise, Mod::CounterClockwise, Mod::Double] {
            let text = Move { face, form }.to_string();
            assert_eq!(text, format!("{}{}", face.to_str(), form.to_str()));
            assert!(text.len() == 1 || text.len() == 2);
        }
    }
}

#[test]
fn the_six_draws_stand_for_the_six_faces() {
    assert_eq!(FACES, 6);
    assert_eq!(Face::from_draw(0), Face::Down);
    assert_eq!(Face::from_draw(1), Face::Front);
    assert_eq!(Face::from_draw(2), Face::Back);
    assert_eq!(Face::from_draw(3), Face::Right);
    assert_eq!(Face::from_draw(4), Face::Left);
    assert_eq!(Face::from_draw(5), Face::Up);
    for face in ALL_FACES {
        let draws = (0..FACES).filter(|&draw| Face::from_draw(draw) == face).count();
        assert_eq!(draws, 1);
    }
}

#[test]
fn a_draw_out_of_range_stands_for_down() {
    assert_eq!(Face::from_draw(6), Face::Down);
    assert_eq!(Face::from_draw(u32::MAX), Face::Down);
}

#[test]
fn the_three_draws_stand_for_the_three_turns() {
    assert_eq!(TURNS, 3);
    assert_eq!(Mod::from_draw(0), Mod::Double);
    assert_eq!(Mod::from_draw(1), Mod::Clockwise);
    assert_eq!(Mod::from_draw(2), Mod::CounterClockwise);
    assert_eq!(Mod::from_draw(3), Mod::Double);
    assert_eq!(Mod::from_draw(u32::MAX), Mod::Double);
}

#[test]
fn a_face_may_follow_the_faces_of_the_other_axes() {
    for prev in ALL_FACES {
        let mut permitted = 0;
        for next in ALL_FACES {
            let expected = next != prev && next != prev.opposite();
            assert_eq!(next.may_follow(&prev), expected);
            if expected {
                permitted += 1;
            }
        }
        assert_eq!(permitted, 4);
    }
    assert!(Face::Right.may_follow(&Face::Front));
    assert!(!Face::Front.may_follow(&Face::Front));
    assert!(!Face::Back.may_follow(&Face::Front));
}
