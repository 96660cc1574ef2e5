use can_stm32_driver::controller::{Can1Wrapper, CanError, TimingError};
use can_stm32_driver::filter::MessageFilter;
use can_stm32_driver::frame::LogicalFrame;
use can_stm32_driver::status::{
    confinement_state_from_error_counts, FaultConfinementState, OperationMode, StatusBits,
};
use can_stm32_driver::timing::TimingParameters;

fn test_frame(id: u32) -> LogicalFrame {
    LogicalFrame {
        id,
        is_extended: false,
        is_remote_request: false,
        dlc: 4,
        data: [9, 8, 7, 6, 0, 0, 0, 0],
    }
}

#[test]
fn new_controller_reset_state() {
    let c = Can1Wrapper::new();
    assert_eq!(c.mailboxes.len(), 3);
    assert_eq!(c.banks.len(), 28);
    assert!(c.mailboxes.iter().all(|m| m.free && !m.request_pending));
    assert!(c.banks.iter().all(|b| !b.active));
    assert_eq!(c.unused_filter_bank_count(), 28);
    assert!(!c.is_asleep());
    assert!(!c.in_bus_monitoring_mode());
    assert_eq!(c.receive_error_count(), 0);
    assert_eq!(c.transmit_error_count(), 0);
}

#[test]
fn mailbox_exhaustion_fourth_transmit_would_block() {
    let mut c = Can1Wrapper::new();
    assert!(c.transmit(&test_frame(1)).is_ok());
    assert!(c.transmit(&test_frame(2)).is_ok());
    assert!(c.transmit(&test_frame(3)).is_ok());
    let snapshot = c.mailboxes.clone();
    let r = c.transmit(&test_frame(4));
    assert_eq!(r, Err(CanError::WouldBlock));
    assert_eq!(c.mailboxes, snapshot);
}

#[test]
fn transmit_programs_first_free_mailbox_in_order() {
    let mut c = Can1Wrapper::new();
    c.transmit(&test_frame(0x10)).unwrap();
    assert!(!c.mailboxes[0].free && c.mailboxes[0].request_pending);
    assert_eq!(c.mailboxes[0].id_word, 0x10 << 21);
    assert_eq!(c.mailboxes[0].dlc, 4);
    assert_eq!(c.mailboxes[0].data_low, 0x0607_0809);
    assert!(c.mailboxes[1].free);
    c.transmit(&test_frame(0x11)).unwrap();
    assert_eq!(c.mailboxes[1].id_word, 0x11 << 21);
    assert!(c.mailboxes[2].free);
}

#[test]
fn transmit_completion_frees_mailbox_again() {
    let mut c = Can1Wrapper::new();
    for id in 1..=3 {
        c.transmit(&test_frame(id)).unwrap();
    }
    assert_eq!(c.transmit(&test_frame(4)), Err(CanError::WouldBlock));
    c.notify_transmit_complete(1);
    assert!(c.mailboxes[1].free && !c.mailboxes[1].request_pending);
    assert!(c.transmit(&test_frame(4)).is_ok());
    assert_eq!(c.mailboxes[1].id_word, 4 << 21);
}

#[test]
fn receive_reports_retry_later() {
    let mut c = Can1Wrapper::new();
    let mut buf = test_frame(0);
    let before = buf;
    assert_eq!(c.receive(&mut buf), Err(CanError::WouldBlock));
    assert_eq!(buf, before);
}

#[test]
fn filter_allocation_28_filters_exhaust_the_bank() {
    let mut c = Can1Wrapper::new();
    for i in 0..28u32 {
        assert_eq!(c.unused_filter_bank_count(), 28 - i);
        c.add_filter(&MessageFilter { id: 0x100 + i, mask: None });
    }
    assert_eq!(c.unused_filter_bank_count(), 0);
    let snapshot = c.banks.clone();
    c.add_filter(&MessageFilter { id: 0x999, mask: Some(0x7F0) });
    assert_eq!(c.banks, snapshot);
    assert_eq!(c.unused_filter_bank_count(), 0);
}

#[test]
fn add_filter_programs_bank_registers() {
    let mut c = Can1Wrapper::new();
    c.add_filter(&MessageFilter { id: 0x123, mask: Some(0x7FF) });
    let b = &c.banks[0];
    assert!(b.active && b.single_32bit_scale && !b.list_mode);
    assert_eq!(b.id_word, 0x123 << 3);
    assert_eq!(b.mask_word, 0x7FF << 3);
    // A missing mask programs the all-ones "match exactly" mask.
    c.add_filter(&MessageFilter { id: 0x456, mask: None });
    assert_eq!(c.banks[1].id_word, 0x456 << 3);
    assert_eq!(c.banks[1].mask_word, 0xFFFF_FFFF);
}

#[test]
fn filter_removal_is_idempotent() {
    let mut c = Can1Wrapper::new();
    c.add_filter(&MessageFilter { id: 5, mask: None });
    c.add_filter(&MessageFilter { id: 6, mask: None });
    c.remove_filter(&MessageFilter { id: 5, mask: None });
    assert!(!c.banks[0].active);
    assert!(c.banks[1].active);
    let snapshot = c.banks.clone();
    c.remove_filter(&MessageFilter { id: 5, mask: None });
    assert_eq!(c.banks, snapshot);
    assert_eq!(c.unused_filter_bank_count(), 27);
}

#[test]
fn removing_a_filter_never_added_changes_nothing() {
    let mut c = Can1Wrapper::new();
    c.add_filter(&MessageFilter { id: 5, mask: None });
    let snapshot = c.banks.clone();
    c.remove_filter(&MessageFilter { id: 77, mask: None });
    assert_eq!(c.banks, snapshot);
}

#[test]
fn clear_filters_deactivates_all_banks() {
    let mut c = Can1Wrapper::new();
    for i in 0..10u32 {
        c.add_filter(&MessageFilter { id: i, mask: None });
    }
    assert_eq!(c.unused_filter_bank_count(), 18);
    c.clear_filters();
    assert_eq!(c.unused_filter_bank_count(), 28);
    assert!(c.banks.iter().all(|b| !b.active));
    // The registers of a cleared bank keep their programmed values.
    assert_eq!(c.banks[3].id_word, 3 << 3);
}

#[test]
fn timing_out_of_range_prescaler_rejected() {
    let mut c = Can1Wrapper::new();
    let before = c.timing;
    let r = c.set_speed(&TimingParameters {
        baud_rate_prescaler: 1025,
        segment_1_length: 13,
        segment_2_length: 2,
        jump_width: 1,
    });
    assert_eq!(r, Err(TimingError::OutOfRange));
    assert_eq!(c.timing, before);
}

#[test]
fn timing_zero_fields_rejected() {
    let mut c = Can1Wrapper::new();
    let r = c.set_speed(&TimingParameters {
        baud_rate_prescaler: 0,
        segment_1_length: 13,
        segment_2_length: 2,
        jump_width: 1,
    });
    assert_eq!(r, Err(TimingError::OutOfRange));
    let r2 = c.set_speed(&TimingParameters {
        baud_rate_prescaler: 4,
        segment_1_length: 13,
        segment_2_length: 2,
        jump_width: 0,
    });
    assert_eq!(r2, Err(TimingError::OutOfRange));
}

#[test]
fn timing_all_ones_programs_zero_based_zeros() {
    let mut c = Can1Wrapper::new();
    let r = c.set_speed(&TimingParameters {
        baud_rate_prescaler: 1,
        segment_1_length: 1,
        segment_2_length: 1,
        jump_width: 1,
    });
    assert!(r.is_ok());
    assert_eq!(c.timing.prescaler, 0);
    assert_eq!(c.timing.segment_1, 0);
    assert_eq!(c.timing.segment_2, 0);
    assert_eq!(c.timing.jump_width, 0);
}

#[test]
fn timing_maximum_values_accepted() {
    let mut c = Can1Wrapper::new();
    let max = c.maximum_timing_values();
    assert_eq!(max.baud_rate_prescaler, 1024);
    assert_eq!(max.segment_1_length, 16);
    assert_eq!(max.segment_2_length, 8);
    assert_eq!(max.jump_width, 4);
    assert!(c.set_speed(&max).is_ok());
    assert_eq!(c.timing.prescaler, 1023);
    assert_eq!(c.timing.segment_1, 15);
    assert_eq!(c.timing.segment_2, 7);
    assert_eq!(c.timing.jump_width, 3);
}

#[test]
fn mode_precedence_sleep_beats_transmitter() {
    let mut c = Can1Wrapper::new();
    c.update_status_bits(StatusBits {
        sleep_ack: true,
        init_ack: false,
        transmitting: true,
        receiving: false,
    });
    assert_eq!(c.current_operation_mode(), OperationMode::Integrating);
}

#[test]
fn mode_precedence_init_beats_receiver() {
    let mut c = Can1Wrapper::new();
    c.update_status_bits(StatusBits {
        sleep_ack: false,
        init_ack: true,
        transmitting: false,
        receiving: true,
    });
    assert_eq!(c.current_operation_mode(), OperationMode::Integrating);
}

#[test]
fn mode_transmitter_receiver_idle() {
    let mut c = Can1Wrapper::new();
    c.update_status_bits(StatusBits {
        sleep_ack: false,
        init_ack: false,
        transmitting: true,
        receiving: true,
    });
    assert_eq!(c.current_operation_mode(), OperationMode::Transmitter);
    c.update_status_bits(StatusBits {
        sleep_ack: false,
        init_ack: false,
        transmitting: false,
        receiving: true,
    });
    assert_eq!(c.current_operation_mode(), OperationMode::Receiver);
    c.update_status_bits(StatusBits {
        sleep_ack: false,
        init_ack: false,
        transmitting: false,
        receiving: false,
    });
    assert_eq!(c.current_operation_mode(), OperationMode::Idle);
}

#[test]
fn sleep_request_and_wakeup_set_the_control_bit() {
    let mut c = Can1Wrapper::new();
    assert!(!c.sleep_requested);
    c.request_sleep_mode();
    assert!(c.sleep_requested);
    // The request alone does not put the hardware to sleep.
    assert!(!c.is_asleep());
    c.request_wakeup();
    assert!(!c.sleep_requested);
}

#[test]
fn fault_classification_zero_counts_error_active() {
    let mut c = Can1Wrapper::new();
    c.update_error_counters(0, 0);
    assert_eq!(c.fault_confinement_state(), FaultConfinementState::ErrorActive);
    assert_eq!(c.receive_error_count(), 0);
    assert_eq!(c.transmit_error_count(), 0);
}

#[test]
fn fault_classification_thresholds() {
    assert_eq!(confinement_state_from_error_counts(0, 0), FaultConfinementState::ErrorActive);
    assert_eq!(
        confinement_state_from_error_counts(127, 127),
        FaultConfinementState::ErrorActive
    );
    assert_eq!(confinement_state_from_error_counts(128, 0), FaultConfinementState::ErrorPassive);
    assert_eq!(confinement_state_from_error_counts(0, 128), FaultConfinementState::ErrorPassive);
    assert_eq!(
        confinement_state_from_error_counts(255, 255),
        FaultConfinementState::ErrorPassive
    );
    assert_eq!(confinement_state_from_error_counts(256, 0), FaultConfinementState::BusOff);
    assert_eq!(confinement_state_from_error_counts(0, 256), FaultConfinementState::BusOff);
    assert_eq!(confinement_state_from_error_counts(300, 300), FaultConfinementState::BusOff);
}

#[test]
fn fault_classification_from_driver_counters() {
    let mut c = Can1Wrapper::new();
    c.update_error_counters(200, 10);
    assert_eq!(c.fault_confinement_state(), FaultConfinementState::ErrorPassive);
    assert_eq!(c.receive_error_count(), 200);
    assert_eq!(c.transmit_error_count(), 10);
}
