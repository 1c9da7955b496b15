use kinect_one::packet::{ColorPacket, DepthPacket};
use kinect_one::processor::color::{make_frame, ColorFrame, ColorSpace, DecodedImage};
use kinect_one::processor::color::ZuneColorProcessor;
use kinect_one::processor::{NoopProcessor, PipedProcessor, ProcessTrait, ProcessorTrait};
use kinect_one::Error;

fn segment(marker: u8, body: &[u8]) -> Vec<u8> {
    let mut bytes = vec![0xff, marker];
    bytes.extend(((body.len() + 2) as u16).to_be_bytes());
    bytes.extend(body);
    bytes
}

/// A baseline JPEG of `width` by `height` mid-grey pixels, three components
/// without subsampling, every coefficient zero.
fn grey_jpeg(width: u16, height: u16) -> Vec<u8> {
    let mut bytes = vec![0xff, 0xd8];
    let mut table = vec![0u8];
    table.extend([1u8; 64]);
    bytes.extend(segment(0xdb, &table));
    let mut frame = vec![8];
    frame.extend(height.to_be_bytes());
    frame.extend(width.to_be_bytes());
    frame.extend([3, 1, 0x11, 0, 2, 0x11, 0, 3, 0x11, 0]);
    bytes.extend(segment(0xc0, &frame));
    for class in [0x00u8, 0x10] {
        let mut huffman = vec![class, 1];
        huffman.extend([0u8; 15]);
        huffman.push(0);
        bytes.extend(segment(0xc4, &huffman));
    }
    bytes.extend(segment(0xda, &[3, 1, 0, 2, 0, 3, 0, 0, 63, 0]));
    let blocks = ((width as usize + 7) / 8) * ((height as usize + 7) / 8) * 3;
    let bits = 2 * blocks;
    let mut scan = vec![0u8; (bits + 7) / 8];
    if bits % 8 != 0 {
        let last = scan.len() - 1;
        scan[last] = 0xff >> (bits % 8);
    }
    bytes.extend(scan);
    bytes.extend([0xff, 0xd9]);
    bytes
}

fn packet(jpeg_buffer: Vec<u8>) -> ColorPacket {
    ColorPacket {
        sequence: 11,
        timestamp: 22,
        exposure: 0x3f000000,
        gain: 0x3f800000,
        gamma: 0x40000000,
        jpeg_buffer,
    }
}

#[test]
fn color_space_pixel_sizes() {
    assert_eq!(ColorSpace::RGB.bytes_per_pixel(), 3);
    assert_eq!(ColorSpace::BGR.bytes_per_pixel(), 3);
    assert_eq!(ColorSpace::YCbCr.bytes_per_pixel(), 3);
    assert_eq!(ColorSpace::RGBA.bytes_per_pixel(), 4);
    assert_eq!(ColorSpace::BGRA.bytes_per_pixel(), 4);
    assert_eq!(ColorSpace::Unknown.bytes_per_pixel(), 0);
}

#[test]
fn color_space_alpha() {
    for space in [ColorSpace::RGBA, ColorSpace::BGRA] {
        assert!(space.has_alpha());
        assert_eq!(space.alpha_position(), Some(3));
    }
    for space in [ColorSpace::RGB, ColorSpace::BGR, ColorSpace::YCbCr, ColorSpace::Unknown] {
        assert!(!space.has_alpha());
        assert_eq!(space.alpha_position(), None);
    }
}

#[test]
fn frame_carries_what_the_packet_told() {
    let decoded =
        DecodedImage { color_space: ColorSpace::BGR, width: 2, height: 1, buffer: vec![1; 6] };
    let frame = make_frame(1, 2, 3, 4, 5, decoded);
    assert_eq!(frame.color_space, ColorSpace::BGR);
    assert_eq!((frame.width, frame.height), (2, 1));
    assert_eq!(frame.buffer, vec![1; 6]);
    assert_eq!(
        (frame.sequence, frame.timestamp, frame.exposure, frame.gain, frame.gamma),
        (1, 2, 3, 4, 5)
    );
}

#[test]
fn zune_decodes_a_grey_image() {
    let processor = ZuneColorProcessor::new(ColorSpace::RGB);
    let frame = processor.process(packet(grey_jpeg(16, 8))).expect("a frame");
    assert_eq!(frame.color_space, ColorSpace::RGB);
    assert_eq!((frame.width, frame.height), (16, 8));
    assert_eq!(frame.buffer.len(), 16 * 8 * 3);
    assert!(frame.buffer.iter().all(|value| (127..=129).contains(value)));
    assert_eq!((frame.sequence, frame.timestamp), (11, 22));
    assert_eq!((frame.exposure, frame.gain, frame.gamma), (0x3f000000, 0x3f800000, 0x40000000));
}

#[test]
fn zune_decodes_into_the_color_space_asked_for() {
    let processor = ZuneColorProcessor::new(ColorSpace::BGRA);
    let frame = processor.process(packet(grey_jpeg(8, 8))).expect("a frame");
    assert_eq!(frame.color_space, ColorSpace::BGRA);
    assert_eq!(frame.buffer.len(), 8 * 8 * 4);
    assert_eq!(frame.buffer[3], 255);
}

#[test]
fn zune_makes_nothing_in_the_unknown_color_space() {
    let processor = ZuneColorProcessor::new(ColorSpace::Unknown);
    assert!(matches!(
        processor.process(packet(grey_jpeg(16, 8))),
        Err(Error::Processing(_))
    ));
    assert!(matches!(processor.process(packet(vec![])), Err(Error::Processing(_))));
}

#[test]
fn zune_is_asked_for_the_image_within_the_color_image() {
    let processor = ZuneColorProcessor::new(ColorSpace::BGR);
    let request = processor.request(vec![1, 2, 3]);
    assert_eq!(request.jpeg, vec![1, 2, 3]);
    assert_eq!(request.color_space, ColorSpace::BGR);
    assert_eq!((request.max_width, request.max_height), (1920, 1080));
}

#[test]
fn zune_decodes_an_image_as_large_as_the_color_image() {
    let processor = ZuneColorProcessor::new(ColorSpace::RGB);
    let frame = processor.process(packet(grey_jpeg(1920, 8))).expect("a frame");
    assert_eq!((frame.width, frame.height), (1920, 8));
}

#[test]
fn zune_refuses_what_is_no_jpeg() {
    let processor = ZuneColorProcessor::new(ColorSpace::RGB);
    match processor.process(packet(vec![1, 2, 3, 4])) {
        Err(Error::Processing(reason)) => assert!(!reason.is_empty()),
        other => panic!("expected a processing error, got {:?}", other),
    }
    assert!(matches!(processor.process(packet(vec![])), Err(Error::Processing(_))));
}

#[test]
fn zune_refuses_images_larger_than_the_color_image() {
    let processor = ZuneColorProcessor::new(ColorSpace::RGB);
    assert!(matches!(
        processor.process(packet(grey_jpeg(1921, 8))),
        Err(Error::Processing(_))
    ));
    assert!(matches!(
        processor.process(packet(grey_jpeg(8, 1081))),
        Err(Error::Processing(_))
    ));
}

#[test]
fn packets_hand_themselves_to_a_processor() {
    let processor = ZuneColorProcessor::new(ColorSpace::RGB);
    let frame = packet(grey_jpeg(8, 8)).process(&processor).expect("a frame");
    assert_eq!((frame.width, frame.height), (8, 8));
    let depth = DepthPacket { sequence: 1, timestamp: 2, buffer: vec![] };
    assert_eq!(depth.process(&NoopProcessor), Ok(()));
}

#[test]
fn noop_processor_takes_anything() {
    assert_eq!(ProcessorTrait::<u8, ()>::process(&NoopProcessor, 5), Ok(()));
    assert_eq!(ProcessorTrait::<ColorPacket, ()>::process(&NoopProcessor, packet(vec![])), Ok(()));
}

struct Dimensions;

impl ProcessorTrait<ColorFrame, (usize, usize)> for Dimensions {
    fn process(&self, input: ColorFrame) -> Result<(usize, usize), Error> {
        Ok((input.width, input.height))
    }
}

#[test]
fn piped_processors_run_in_a_row() {
    let decoder = ZuneColorProcessor::new(ColorSpace::RGB);
    let measure = Dimensions;
    let piped = PipedProcessor::pipe(&decoder, &measure);
    assert_eq!(piped.process(packet(grey_jpeg(24, 16))), Ok((24, 16)));
    assert!(matches!(piped.process(packet(vec![0xff])), Err(Error::Processing(_))));
    let twice = PipedProcessor::pipe(&piped, &NoopProcessor);
    assert_eq!(twice.process(packet(grey_jpeg(8, 8))), Ok(()));
}
