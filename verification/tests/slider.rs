use canvas_paint::ui::widget::slider::get_slider_bounds;
use canvas_paint::Error;

fn custom_message(res: Result<(f32, f32), Error>) -> String {
    match res {
        Err(Error::Custom(m)) => m,
        other => panic!("expected a custom error, got {:?}", other),
    }
}

#[test]
fn bounds_of_a_built_slider() {
    // left bound, knob, right bound, as the slider widget spawns them
    let children = vec![(Some(-50.0f32), None), (None, None), (None, Some(50.0f32))];
    assert_eq!(get_slider_bounds(&children).unwrap(), (-50.0, 50.0));
}

#[test]
fn empty_slot_reports_missing_left_bound() {
    let children: Vec<(Option<f32>, Option<f32>)> = Vec::new();
    assert_eq!(custom_message(get_slider_bounds(&children)), "No left bound found in Slider");
}

#[test]
fn missing_left_bound_is_reported_before_missing_right_bound() {
    let children = vec![(None, None), (None::<f32>, None::<f32>)];
    assert_eq!(custom_message(get_slider_bounds(&children)), "No left bound found in Slider");
    let only_right = vec![(None, Some(3.0f32))];
    assert_eq!(custom_message(get_slider_bounds(&only_right)), "No left bound found in Slider");
}

#[test]
fn missing_right_bound_is_reported() {
    let children = vec![(Some(1.5f32), None), (None, None)];
    assert_eq!(custom_message(get_slider_bounds(&children)), "No right bound found in Slider");
}

#[test]
fn last_bound_of_each_side_wins() {
    let children = vec![
        (Some(1.0f32), Some(10.0f32)),
        (Some(2.0f32), None),
        (None, Some(20.0f32)),
        (None, None),
    ];
    assert_eq!(get_slider_bounds(&children).unwrap(), (2.0, 20.0));
}

#[test]
fn one_child_may_give_both_bounds() {
    let children = vec![(Some(-4.0f32), Some(4.0f32))];
    assert_eq!(get_slider_bounds(&children).unwrap(), (-4.0, 4.0));
}
