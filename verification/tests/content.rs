use ccline_intro::content::get_step_title;

#[test]
fn step_titles() {
    assert_eq!(get_step_title(0), " Welcome ");
    assert_eq!(get_step_title(1), " Nerd Font Test ");
    assert_eq!(get_step_title(2), " Automatic Configuration ");
}

#[test]
fn out_of_range_step_gets_fallback_title() {
    assert_eq!(get_step_title(3), " Intro ");
    assert_eq!(get_step_title(100), " Intro ");
}
