use chess_cli::chess::error::SystemError;
use chess_cli::chess::piece::Position;

#[test]
fn parse_all_valid_lowercase() {
    let files = ['a', 'b', 'c', 'd', 'e', 'f', 'g', 'h'];
    let ranks = ['1', '2', '3', '4', '5', '6', '7', '8'];
    for (fi, &fc) in files.iter().enumerate() {
        for (ri, &rc) in ranks.iter().enumerate() {
            let pos = Position::new([fc, rc]).unwrap();
            assert_eq!(pos.file, fi as i8);
            assert_eq!(pos.rank, ri as i8);
        }
    }
}

#[test]
fn parse_all_valid_uppercase_matches_lowercase() {
    let lower = ['a', 'b', 'c', 'd', 'e', 'f', 'g', 'h'];
    let upper = ['A', 'B', 'C', 'D', 'E', 'F', 'G', 'H'];
    for i in 0..8 {
        for rc in ['1', '8'] {
            let lo = Position::new([lower[i], rc]).unwrap();
            let up = Position::new([upper[i], rc]).unwrap();
            assert_eq!(lo, up);
            assert_eq!(up.file, i as i8);
        }
    }
}

#[test]
fn parse_rejects_bad_rank() {
    for rc in ['0', '9', 'a', ' ', '\n'] {
        let r = Position::new(['a', rc]);
        assert_eq!(r, Err(SystemError::InvalidPosition('a', rc)));
    }
}

#[test]
fn parse_rejects_bad_file() {
    for fc in ['i', 'z', 'I', 'Z', '1', ' ', '@', '`'] {
        let r = Position::new([fc, '5']);
        assert_eq!(r, Err(SystemError::InvalidPosition(fc, '5')));
    }
}

#[test]
fn parse_rejects_both_bad_carries_originals() {
    let r = Position::new(['z', '9']);
    assert_eq!(r, Err(SystemError::InvalidPosition('z', '9')));
}
