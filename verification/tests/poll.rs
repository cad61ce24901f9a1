use disp_writer::poll::{pause_after, PollState};

#[test]
fn first_frame_is_drawn() {
    let mut st = PollState::new();
    assert_eq!(st.last_seq, None);
    assert_eq!(st.render_count, 0);
    assert!(st.accept_frame(7));
    assert_eq!(st.last_seq, Some(7));
}

#[test]
fn same_seq_is_not_redrawn() {
    let mut st = PollState::new();
    assert!(st.accept_frame(7));
    assert!(!st.accept_frame(7));
    assert!(!st.accept_frame(7));
    assert_eq!(st.last_seq, Some(7));
}

#[test]
fn changed_seq_is_drawn_even_if_smaller() {
    let mut st = PollState::new();
    assert!(st.accept_frame(7));
    assert!(st.accept_frame(8));
    assert!(st.accept_frame(3));
    assert!(!st.accept_frame(3));
    assert_eq!(st.render_count, 0);
}

#[test]
fn flush_time_logged_on_first_and_every_fiftieth_draw() {
    let mut st = PollState::new();
    let mut logged = Vec::new();
    for i in 0..120u64 {
        if st.record_render() {
            logged.push(i);
        }
    }
    assert_eq!(logged, vec![0, 50, 100]);
    assert_eq!(st.render_count, 120);
    assert_eq!(st.last_seq, None);
}

#[test]
fn pause_fills_the_rest_of_the_interval() {
    assert_eq!(pause_after(5_000_000, 20_000_000), Some(15_000_000));
    assert_eq!(pause_after(0, 20_000_000), Some(20_000_000));
    assert_eq!(pause_after(20_000_000, 20_000_000), None);
    assert_eq!(pause_after(25_000_000, 20_000_000), None);
}
