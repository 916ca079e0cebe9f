use game_of_life::presets::{get_preset, get_preset_from};

#[test]
fn shape_cells_are_read_row_by_row() {
    assert_eq!(get_preset_from(b"# #\n\n #"), vec![(0, 0), (2, 0), (1, 2)]);
}

#[test]
fn empty_shape_has_no_cells() {
    assert_eq!(get_preset_from(b""), vec![]);
    assert_eq!(get_preset_from(b"\n\n"), vec![]);
    assert_eq!(get_preset_from(b"   \n  "), vec![]);
}

#[test]
fn every_byte_but_a_space_marks_a_cell() {
    assert_eq!(get_preset_from(b".x\r\n\t"), vec![(0, 0), (1, 0), (2, 0), (0, 1)]);
}

#[test]
fn line_break_at_the_end_adds_nothing() {
    assert_eq!(get_preset_from(b"##\n"), vec![(0, 0), (1, 0)]);
}

#[test]
fn gliders_have_five_cells() {
    assert_eq!(get_preset(1), vec![(1, 0), (2, 1), (0, 2), (1, 2), (2, 2)]);
    assert_eq!(get_preset(2), vec![(1, 0), (0, 1), (0, 2), (1, 2), (2, 2)]);
    assert_eq!(get_preset(3), vec![(0, 0), (1, 0), (2, 0), (2, 1), (1, 2)]);
    assert_eq!(get_preset(4), vec![(0, 0), (1, 0), (2, 0), (0, 1), (1, 2)]);
}

#[test]
fn glider_gun_fits_thirty_six_by_nine() {
    let gun = get_preset(0);
    assert_eq!(gun.len(), 36);
    assert_eq!(gun[0], (24, 0));
    assert_eq!(gun[35], (13, 8));
    assert_eq!(gun.iter().map(|c| c.0).max(), Some(35));
    assert_eq!(gun.iter().map(|c| c.1).max(), Some(8));
}

#[test]
fn other_numbers_name_no_shape() {
    for index in 5..=255u8 {
        assert_eq!(get_preset(index), vec![]);
    }
}
