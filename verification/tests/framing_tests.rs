use ghosttype::audio::{
    list_input_devices, pick_sample_rate, select_input_device_index, supported_rate, FrameBuffer,
    RateRange,
};

#[test]
fn frames_come_out_whole_in_order_with_no_loss() {
    let mut buffer = FrameBuffer::new(4);
    let frames = buffer.push(&vec![1i16, 2, 3, 4, 5, 6, 7, 8, 9, 10]);
    assert_eq!(frames, vec![vec![1i16, 2, 3, 4], vec![5i16, 6, 7, 8]]);

    let frames = buffer.push(&vec![11i16, 12]);
    assert_eq!(frames, vec![vec![9i16, 10, 11, 12]]);

    let frames = buffer.push(&vec![]);
    assert!(frames.is_empty());
}

#[test]
fn piecewise_feeding_equals_one_feed() {
    let mut split = FrameBuffer::new(3);
    let mut collected = Vec::new();
    collected.extend(split.push(&vec![1i16, 2]));
    collected.extend(split.push(&vec![3i16, 4, 5]));
    collected.extend(split.push(&vec![6i16, 7, 8, 9]));

    let mut whole = FrameBuffer::new(3);
    let at_once = whole.push(&vec![1i16, 2, 3, 4, 5, 6, 7, 8, 9]);

    assert_eq!(collected, at_once);
    assert_eq!(collected.len(), 3);
}

#[test]
fn short_input_stays_buffered() {
    let mut buffer = FrameBuffer::new(160);
    let frames = buffer.push(&vec![0i16; 159]);
    assert!(frames.is_empty());
    let frames = buffer.push(&vec![0i16; 1]);
    assert_eq!(frames.len(), 1);
    assert_eq!(frames[0].len(), 160);
}

#[test]
fn preferred_rate_is_chosen_in_order() {
    let wide = vec![RateRange { min_rate: 8000, max_rate: 48000 }];
    assert_eq!(pick_sample_rate(&wide, 44100), Some(48000));

    let narrow = vec![RateRange { min_rate: 11000, max_rate: 22050 }];
    assert_eq!(pick_sample_rate(&narrow, 44100), Some(16000));

    let telephone = vec![RateRange { min_rate: 8000, max_rate: 8000 }];
    assert_eq!(pick_sample_rate(&telephone, 44100), Some(8000));
}

#[test]
fn default_rate_is_used_only_when_whitelisted() {
    let odd = vec![RateRange { min_rate: 44100, max_rate: 44100 }];
    assert_eq!(pick_sample_rate(&odd, 16000), Some(16000));
    assert_eq!(pick_sample_rate(&odd, 44100), None);
    assert_eq!(pick_sample_rate(&vec![], 48000), Some(48000));
    assert_eq!(pick_sample_rate(&vec![], 11025), None);
}

#[test]
fn whitelist_is_exactly_the_five_codec_rates() {
    for rate in [8000u32, 12000, 16000, 24000, 48000] {
        assert!(supported_rate(rate));
    }
    for rate in [0u32, 11025, 22050, 44100, 96000] {
        assert!(!supported_rate(rate));
    }
}

#[test]
fn devices_are_labelled_against_the_default() {
    let names = vec!["USB Mic".to_string(), "Built-in".to_string()];
    let labelled = list_input_devices(&names, &"Built-in".to_string());
    assert_eq!(labelled.len(), 2);
    assert_eq!(labelled[0].name, "USB Mic");
    assert!(!labelled[0].is_default);
    assert_eq!(labelled[1].name, "Built-in");
    assert!(labelled[1].is_default);

    let fallback = list_input_devices(&vec![], &"Built-in".to_string());
    assert_eq!(fallback.len(), 1);
    assert_eq!(fallback[0].name, "Built-in");
    assert!(fallback[0].is_default);

    let nothing = list_input_devices(&vec![], &"".to_string());
    assert!(nothing.is_empty());
}

#[test]
fn requested_devices_are_found_by_trimmed_name() {
    let names = vec!["USB Mic".to_string(), "Built-in".to_string()];
    assert_eq!(select_input_device_index(&names, &Some(" Built-in ".to_string())), Some(1));
    assert_eq!(select_input_device_index(&names, &Some("USB Mic".to_string())), Some(0));
    assert_eq!(select_input_device_index(&names, &Some("Missing".to_string())), None);
    assert_eq!(select_input_device_index(&names, &Some("   ".to_string())), None);
    assert_eq!(select_input_device_index(&names, &None), None);
}
