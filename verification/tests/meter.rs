use knobmuse::colour::{meter_green, meter_headroom, meter_peak, meter_unlit, Rgb};
use knobmuse::meter::{meter_column, meter_segment_color, METER_SEGMENTS};

fn lit_count(col: &[Rgb]) -> usize {
    col.iter().filter(|c| **c != meter_unlit()).count()
}

#[test]
fn segment_colours_of_full_output_meter() {
    assert_eq!(meter_segment_color(21, 22, true), meter_headroom());
    assert_eq!(meter_segment_color(20, 22, true), meter_peak());
    assert_eq!(meter_segment_color(19, 22, true), meter_peak());
    assert_eq!(meter_segment_color(18, 22, true), meter_green());
    assert_eq!(meter_segment_color(0, 22, true), meter_green());
}

#[test]
fn segment_colours_of_full_input_meter() {
    assert_eq!(meter_segment_color(21, 22, false), meter_headroom());
    assert_eq!(meter_segment_color(20, 22, false), meter_headroom());
    assert_eq!(meter_segment_color(19, 22, false), meter_green());
    assert_eq!(meter_segment_color(0, 22, false), meter_green());
}

#[test]
fn segments_above_lit_count_are_unlit() {
    assert_eq!(meter_segment_color(15, 15, false), meter_unlit());
    assert_eq!(meter_segment_color(14, 15, false), meter_green());
    assert_eq!(meter_segment_color(0, 0, true), meter_unlit());
}

#[test]
fn palette_values() {
    assert_eq!(meter_unlit(), Rgb::new(0xE9, 0xEC, 0xF5));
    assert_eq!(meter_peak(), Rgb::new(0xFF, 0xC0, 0x52));
    assert_eq!(meter_headroom(), Rgb::new(0xD0, 0xD6, 0xE8));
    assert_eq!(meter_green(), Rgb::new(0x2E, 0xE5, 0x7A));
}

#[test]
fn column_is_listed_from_the_top() {
    let col = meter_column(22, true);
    assert_eq!(col.len(), METER_SEGMENTS);
    assert_eq!(col[0], meter_headroom());
    assert_eq!(col[1], meter_peak());
    assert_eq!(col[2], meter_peak());
    assert_eq!(col[3], meter_green());
    assert_eq!(col[21], meter_green());
}

#[test]
fn column_lights_a_bottom_run() {
    let col = meter_column(16, false);
    for (i, c) in col.iter().enumerate() {
        assert_eq!(*c != meter_unlit(), i >= METER_SEGMENTS - 16);
    }
    assert_eq!(lit_count(&col), 16);
}

#[test]
fn lit_count_saturates_at_segment_count() {
    assert_eq!(lit_count(&meter_column(0, true)), 0);
    assert_eq!(lit_count(&meter_column(5, true)), 5);
    assert_eq!(lit_count(&meter_column(22, false)), 22);
    assert_eq!(lit_count(&meter_column(40, false)), 22);
}

#[test]
fn input_and_output_differ_only_in_peak_zone() {
    let a = meter_column(22, false);
    let b = meter_column(22, true);
    for i in 0..METER_SEGMENTS {
        let from_bottom = METER_SEGMENTS - 1 - i;
        if from_bottom == 19 || from_bottom == 20 {
            assert_ne!(a[i], b[i]);
        } else {
            assert_eq!(a[i], b[i]);
        }
        assert_ne!(a[i], meter_peak());
    }
}
