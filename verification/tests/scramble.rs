use qube::scramble::{next_face, pick_permitted, random_face, random_modifier, MAX_DRAWS, SCRAMBLE_LEN};
use qube::{generate_scramble, generate_scramble_with, is_valid_scramble, Face, Mod, Move};
use rand::rngs::StdRng;
use rand::SeedableRng;

const ALL_FACES: [Face; 6] =
    [Face::Front, Face::Back, Face::Right, Face::Left, Face::Up, Face::Down];

fn turn(face: Face, form: Mod) -> Move {
    Move { face, form }
}

/// R U R' U' five times over: twenty moves, each about another axis than
/// the one before.
fn right_up_scramble() -> Vec<Move> {
    let mut moves = Vec::new();
    for _ in 0..5 {
        moves.push(turn(Face::Right, Mod::Clockwise));
        moves.push(turn(Face::Up, Mod::Clockwise));
        moves.push(turn(Face::Right, Mod::CounterClockwise));
        moves.push(turn(Face::Up, Mod::CounterClockwise));
    }
    moves
}

#[test]
fn generated_scrambles_have_twenty_moves_and_no_axis_twice() {
    assert_eq!(SCRAMBLE_LEN, 20);
    for _ in 0..200 {
        let scramble = generate_scramble();
        assert_eq!(scramble.len(), 20);
        for i in 1..20 {
            assert_ne!(scramble[i].face, scramble[i - 1].face);
            assert_ne!(scramble[i].face, scramble[i - 1].face.opposite());
        }
        assert!(is_valid_scramble(&scramble));
    }
}

#[test]
fn seeded_scrambles_are_valid() {
    for seed in 0..500u64 {
        let mut rng = StdRng::seed_from_u64(seed);
        let scramble = generate_scramble_with(&mut rng);
        assert_eq!(scramble.len(), 20);
        for i in 1..20 {
            assert_ne!(scramble[i].face, scramble[i - 1].face);
            assert_ne!(scramble[i].face, scramble[i - 1].face.opposite());
        }
    }
}

#[test]
fn one_seed_gives_one_scramble() {
    let mut first = StdRng::seed_from_u64(2024);
    let mut second = StdRng::seed_from_u64(2024);
    assert_eq!(generate_scramble_with(&mut first), generate_scramble_with(&mut second));
    assert_eq!(generate_scramble_with(&mut first), generate_scramble_with(&mut second));
}

#[test]
fn a_generator_goes_on_to_other_scrambles() {
    let mut rng = StdRng::seed_from_u64(7);
    let first = generate_scramble_with(&mut rng);
    let second = generate_scramble_with(&mut rng);
    let third = generate_scramble_with(&mut rng);
    assert!(first != second || second != third);
}

#[test]
fn every_face_and_every_turn_is_drawn() {
    let mut faces = [0usize; 6];
    let mut first_faces = [0usize; 6];
    let mut forms = [0usize; 3];
    for seed in 0..200u64 {
        let mut rng = StdRng::seed_from_u64(seed);
        let scramble = generate_scramble_with(&mut rng);
        let first = ALL_FACES.iter().position(|&f| f == scramble[0].face);
        first_faces[first.unwrap()] += 1;
        for m in scramble {
            faces[ALL_FACES.iter().position(|&f| f == m.face).unwrap()] += 1;
            forms[match m.form {
                Mod::Clockwise => 0,
                Mod::CounterClockwise => 1,
                Mod::Double => 2,
            }] += 1;
        }
    }
    // 4000 moves: a sixth of them is 667, a third 1333
    for count in faces {
        assert!(count > 500 && count < 850, "face drawn {} times", count);
    }
    for count in forms {
        assert!(count > 1150 && count < 1500, "turn drawn {} times", count);
    }
    for count in first_faces {
        assert!(count > 10, "face opens {} scrambles", count);
    }
}

#[test]
fn random_faces_and_turns_cover_all_values() {
    let mut rng = StdRng::seed_from_u64(99);
    let mut faces = Vec::new();
    let mut forms = Vec::new();
    for _ in 0..300 {
        let face = random_face(&mut rng);
        if !faces.contains(&face) {
            faces.push(face);
        }
        let form = random_modifier(&mut rng);
        if !forms.contains(&form) {
            forms.push(form);
        }
    }
    assert_eq!(faces.len(), 6);
    assert_eq!(forms.len(), 3);
}

#[test]
fn the_next_face_turns_about_another_axis() {
    assert!(MAX_DRAWS > 0);
    for seed in 0..50u64 {
        let mut rng = StdRng::seed_from_u64(seed);
        for prev in ALL_FACES {
            let mut seen = Vec::new();
            for _ in 0..100 {
                let next = next_face(prev, &mut rng);
                assert_ne!(next, prev);
                assert_ne!(next, prev.opposite());
                if !seen.contains(&next) {
                    seen.push(next);
                }
            }
            assert_eq!(seen.len(), 4);
        }
    }
}

#[test]
fn four_faces_are_permitted_after_each() {
    assert_eq!(pick_permitted(Face::Front, 0), Face::Right);
    assert_eq!(pick_permitted(Face::Back, 1), Face::Left);
    assert_eq!(pick_permitted(Face::Front, 2), Face::Up);
    assert_eq!(pick_permitted(Face::Back, 3), Face::Down);
    assert_eq!(pick_permitted(Face::Right, 0), Face::Front);
    assert_eq!(pick_permitted(Face::Left, 1), Face::Back);
    assert_eq!(pick_permitted(Face::Right, 2), Face::Up);
    assert_eq!(pick_permitted(Face::Left, 3), Face::Down);
    assert_eq!(pick_permitted(Face::Up, 0), Face::Front);
    assert_eq!(pick_permitted(Face::Down, 1), Face::Back);
    assert_eq!(pick_permitted(Face::Up, 2), Face::Right);
    assert_eq!(pick_permitted(Face::Down, 3), Face::Left);
    for prev in ALL_FACES {
        let mut seen = Vec::new();
        for choice in 0..4 {
            let face = pick_permitted(prev, choice);
            assert!(face.may_follow(&prev));
            assert!(!seen.contains(&face));
            seen.push(face);
        }
        assert_eq!(pick_permitted(prev, 4), pick_permitted(prev, 3));
        assert_eq!(pick_permitted(prev, u32::MAX), pick_permitted(prev, 3));
    }
}

#[test]
fn a_hand_written_scramble_is_accepted() {
    assert!(is_valid_scramble(&right_up_scramble()));
}

#[test]
fn a_scramble_of_another_length_is_refused() {
    let mut moves = right_up_scramble();
    moves.pop();
    assert!(!is_valid_scramble(&moves));
    moves.push(turn(Face::Up, Mod::Double));
    moves.push(turn(Face::Front, Mod::Double));
    assert!(!is_valid_scramble(&moves));
    assert!(!is_valid_scramble(&[]));
}

#[test]
fn the_same_face_twice_in_a_row_is_refused() {
    for at in 1..20 {
        let mut moves = right_up_scramble();
        moves[at].face = moves[at - 1].face;
        assert!(!is_valid_scramble(&moves));
    }
}

#[test]
fn opposite_faces_in_a_row_are_refused() {
    for at in 1..20 {
        let mut moves = right_up_scramble();
        moves[at].face = moves[at - 1].face.opposite();
        assert!(!is_valid_scramble(&moves));
    }
}

#[test]
fn the_same_axis_two_moves_apart_is_accepted() {
    let mut moves = right_up_scramble();
    moves[2].face = Face::Left;
    assert!(is_valid_scramble(&moves));
}
