use only_move::placement::{is_occupied, role_from_draw, PlacedPiece, Placement, Role};
use only_move::sampler::{draw_free_square, generate_random_position, position_from_placement};
use rand::SeedableRng;

#[test]
fn sampled_positions_have_the_requested_pieces() {
    for n in 3u8..=7 {
        for seed in 0u64..20 {
            let mut rng = rand::rngs::StdRng::seed_from_u64(seed);
            let s = generate_random_position(&mut rng, n).expect("a legal position");
            let pieces = &s.placement.pieces;
            assert_eq!(pieces.len(), n as usize);
            assert_eq!(s.placement.piece_count(), n as usize);
            for (i, p) in pieces.iter().enumerate() {
                assert!(p.square < 64);
                for q in &pieces[i + 1..] {
                    assert_ne!(p.square, q.square);
                }
            }
            assert_eq!(pieces[0].role, Role::King);
            assert!(pieces[0].white);
            assert_eq!(pieces[1].role, Role::King);
            assert!(!pieces[1].white);
            assert!(pieces[2..].iter().all(|p| p.role != Role::King));
            // Validating the placement again gives a position again.
            assert!(position_from_placement(&s.placement).is_some());
        }
    }
}

#[test]
fn seeded_sampling_is_reproducible() {
    let mut a = rand::rngs::StdRng::seed_from_u64(42);
    let mut b = rand::rngs::StdRng::seed_from_u64(42);
    let pa = generate_random_position(&mut a, 5).unwrap();
    let pb = generate_random_position(&mut b, 5).unwrap();
    assert_eq!(pa.placement.pieces, pb.placement.pieces);
    assert_eq!(pa.placement.white_to_move, pb.placement.white_to_move);
}

#[test]
fn illegal_placements_are_rejected() {
    // Kings on neighbouring squares.
    let kings_touch = Placement {
        pieces: vec![
            PlacedPiece { square: 0, white: true, role: Role::King },
            PlacedPiece { square: 1, white: false, role: Role::King },
        ],
        white_to_move: true,
    };
    assert!(position_from_placement(&kings_touch).is_none());
    // No black king.
    let lone_king = Placement {
        pieces: vec![PlacedPiece { square: 0, white: true, role: Role::King }],
        white_to_move: true,
    };
    assert!(position_from_placement(&lone_king).is_none());
    // The side not to move is in check.
    let rook_checks = Placement {
        pieces: vec![
            PlacedPiece { square: 4, white: true, role: Role::King },
            PlacedPiece { square: 60, white: false, role: Role::King },
            PlacedPiece { square: 12, white: true, role: Role::Rook },
        ],
        white_to_move: true,
    };
    assert!(position_from_placement(&rook_checks).is_none());
    let legal = Placement {
        white_to_move: false,
        ..rook_checks
    };
    assert!(position_from_placement(&legal).is_some());
}

#[test]
fn free_square_avoids_occupied_ones() {
    let mut pieces = Vec::new();
    for sq in 0u8..63 {
        pieces.push(PlacedPiece { square: sq, white: true, role: Role::Pawn });
    }
    let mut rng = rand::rngs::StdRng::seed_from_u64(1);
    assert_eq!(draw_free_square(&mut rng, &pieces), Some(63));
    assert!(is_occupied(&pieces, 62));
    assert!(!is_occupied(&pieces, 63));
}

#[test]
fn draws_map_to_non_king_roles() {
    assert_eq!(role_from_draw(0), Role::Pawn);
    assert_eq!(role_from_draw(1), Role::Knight);
    assert_eq!(role_from_draw(2), Role::Bishop);
    assert_eq!(role_from_draw(3), Role::Rook);
    assert_eq!(role_from_draw(4), Role::Queen);
}
