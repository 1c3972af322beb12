use input_macro::virtual_path;

#[test]
fn equal_points_have_no_path() {
    assert_eq!(virtual_path(0, 0, 0, 0, 0), None);
    assert_eq!(virtual_path(0, 0, 0, 0, 30), None);
    assert_eq!(virtual_path(7, -3, 7, -3, u32::MAX), None);
}

#[test]
fn diagonal_path_shares_the_duration_evenly() {
    assert_eq!(
        virtual_path(0, 0, 3, 3, 30),
        Some(vec![(1, 1, 10), (2, 2, 10), (3, 3, 10)])
    );
}

#[test]
fn path_along_one_axis_has_no_steps() {
    assert_eq!(virtual_path(0, 0, 3, 0, 30), None);
    assert_eq!(virtual_path(0, 0, 0, -5, 30), None);
}

#[test]
fn path_stops_short_on_the_longer_axis() {
    assert_eq!(
        virtual_path(0, 0, 5, 2, 30),
        Some(vec![(1, 1, 15), (2, 2, 15)])
    );
    assert_eq!(
        virtual_path(10, 10, 8, 0, 7),
        Some(vec![(9, 9, 3), (8, 8, 3)])
    );
}
