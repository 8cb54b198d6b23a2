use nyaterm::header_status::{HeaderStatusMode, HeaderStatusState};

#[test]
fn header_status_modes_round_trip_through_their_ids() {
    for mode in HeaderStatusMode::all() {
        assert_eq!(HeaderStatusMode::from_setting(mode.persistence_id()), mode);
    }
    assert_eq!(HeaderStatusMode::from_setting("  gpu \n"), HeaderStatusMode::Gpu);
    assert_eq!(HeaderStatusMode::from_setting("GPU"), HeaderStatusMode::Session);
    assert_eq!(HeaderStatusMode::DateTime.i18n_key(), "headerStatus.datetime");
    let state = HeaderStatusState::default();
    assert_eq!(state.rendered_minute, -1);
    assert_eq!((state.gpu_page, state.npu_page), (0, 0));
}
