use rust_audio_engine::waveform::WaveformGenerator;

#[test]
fn columns_show_the_range_of_their_frames() {
    let generator = WaveformGenerator::new();
    // two columns of three mono frames each
    let peaks = generator.downsample_to_peaks(&[1, -2, 3, 4, 5, 6], 2, 1);
    assert_eq!(peaks, vec![(-2, 3), (0, 6)]);
    // the range always holds 0
    let peaks = generator.downsample_to_peaks(&[-1, -2, -3, -4], 1, 1);
    assert_eq!(peaks, vec![(-4, 0)]);
}

#[test]
fn columns_show_the_left_channel() {
    let generator = WaveformGenerator::new();
    // stereo: the left channel is 1, 3, -5, 7
    let peaks = generator.downsample_to_peaks(&[1, 100, 3, -100, -5, 100, 7, -100], 2, 2);
    assert_eq!(peaks, vec![(0, 3), (-5, 7)]);
    // frames beyond the last whole column are left out: 7 frames in 3 columns of 2
    let peaks = generator.downsample_to_peaks(&[1, 2, 3, 4, 5, 6, 99], 3, 1);
    assert_eq!(peaks, vec![(0, 2), (0, 4), (0, 6)]);
}

#[test]
fn fewer_frames_than_columns_give_flat_columns() {
    let generator = WaveformGenerator::new();
    assert_eq!(generator.downsample_to_peaks(&[5, -5, 5], 4, 1), vec![(0, 0); 4]);
    assert_eq!(generator.downsample_to_peaks(&[], 2, 2), vec![(0, 0); 2]);
}

#[test]
fn image_begins_with_the_png_signature() {
    let generator = WaveformGenerator::new();
    let png = generator.render_png(&[(-1, 1)], 1, 200);
    assert_eq!(png, vec![137, 80, 78, 71, 13, 10, 26, 10]);
    assert_eq!(&png[1..4], b"PNG");
}
