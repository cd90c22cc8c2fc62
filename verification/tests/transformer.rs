use lsb_stego::buffer::PixelBuffer;
use lsb_stego::codec::{process_pixel, Mode, Pixel};
use lsb_stego::error::StegoError;
use lsb_stego::transformer::{
    check_compatibility, decode_lsb_steganography, decode_lsb_steganography_with_degree,
    perform_lsb_steganography, perform_lsb_steganography_with_degree,
};

fn pixel(red: u8, green: u8, blue: u8) -> Pixel {
    Pixel { red, green, blue }
}

fn patterned(width: u32, height: u32, seed: u32) -> PixelBuffer {
    let count: u32 = width * height;
    let mut pixels: Vec<Pixel> = Vec::new();
    for i in 0..count {
        let value: u32 = i.wrapping_mul(2654435761).wrapping_add(seed);
        pixels.push(pixel((value >> 24) as u8, (value >> 13) as u8, (value >> 3) as u8));
    }
    PixelBuffer::new(width, height, pixels).unwrap()
}

fn encoded_one_by_one(secret: &PixelBuffer, decoy: &PixelBuffer) -> Vec<Pixel> {
    let mut expected: Vec<Pixel> = Vec::new();
    for i in 0..secret.len() {
        expected.push(process_pixel(secret.pixels()[i], decoy.pixels()[i], Mode::Encode));
    }
    expected
}

#[test]
fn same_size_is_compatible() {
    let first: PixelBuffer = patterned(4, 3, 1);
    let second: PixelBuffer = patterned(4, 3, 2);
    assert_eq!(check_compatibility(&first, &second), Ok(()));
}

#[test]
fn different_size_is_not_compatible() {
    let first: PixelBuffer = patterned(4, 3, 1);
    assert_eq!(
        check_compatibility(&first, &patterned(4, 4, 1)),
        Err(StegoError::CompatibilityError)
    );
    assert_eq!(
        check_compatibility(&first, &patterned(5, 3, 1)),
        Err(StegoError::CompatibilityError)
    );
}

#[test]
fn same_area_in_another_shape_is_not_compatible() {
    let wide: PixelBuffer = patterned(4, 3, 1);
    let tall: PixelBuffer = patterned(3, 4, 1);
    assert_eq!(wide.len(), tall.len());
    assert_eq!(check_compatibility(&wide, &tall), Err(StegoError::CompatibilityError));
    assert_eq!(check_compatibility(&tall, &wide), Err(StegoError::CompatibilityError));
}

#[test]
fn encode_refuses_different_sizes() {
    let secret: PixelBuffer = patterned(4, 3, 1);
    let decoy: PixelBuffer = patterned(3, 4, 2);
    assert_eq!(perform_lsb_steganography(&secret, &decoy), Err(StegoError::CompatibilityError));
    assert_eq!(
        perform_lsb_steganography(&secret, &patterned(4, 2, 2)),
        Err(StegoError::CompatibilityError)
    );
    for degree in 0..5usize {
        assert_eq!(
            perform_lsb_steganography_with_degree(&secret, &decoy, degree),
            Err(StegoError::CompatibilityError)
        );
    }
}

#[test]
fn white_secret_in_black_decoy_image() {
    let secret: PixelBuffer = PixelBuffer::new(2, 2, vec![pixel(255, 255, 255); 4]).unwrap();
    let decoy: PixelBuffer = PixelBuffer::new(2, 2, vec![pixel(0, 0, 0); 4]).unwrap();
    let encoded: PixelBuffer = perform_lsb_steganography(&secret, &decoy).unwrap();
    assert_eq!(encoded.dimensions(), (2, 2));
    assert_eq!(encoded.pixels(), &vec![pixel(1, 1, 1); 4]);
    let decoded: PixelBuffer = decode_lsb_steganography(&encoded);
    assert_eq!(decoded.dimensions(), (2, 2));
    assert_eq!(decoded.pixels(), &vec![pixel(128, 128, 128); 4]);
}

#[test]
fn encode_places_each_pixel_at_its_index() {
    let secret: PixelBuffer = PixelBuffer::new(
        3,
        1,
        vec![pixel(240, 0, 128), pixel(127, 255, 1), pixel(0, 200, 64)],
    ).unwrap();
    let decoy: PixelBuffer = PixelBuffer::new(
        3,
        1,
        vec![pixel(3, 3, 3), pixel(10, 20, 30), pixel(255, 254, 253)],
    ).unwrap();
    let encoded: PixelBuffer = perform_lsb_steganography(&secret, &decoy).unwrap();
    assert_eq!(encoded.dimensions(), (3, 1));
    assert_eq!(
        encoded.pixels(),
        &vec![pixel(3, 2, 3), pixel(10, 21, 30), pixel(254, 255, 252)]
    );
}

#[test]
fn decode_places_each_pixel_at_its_index() {
    let encoded: PixelBuffer = PixelBuffer::new(
        1,
        3,
        vec![pixel(3, 2, 3), pixel(10, 21, 30), pixel(254, 255, 252)],
    ).unwrap();
    let decoded: PixelBuffer = decode_lsb_steganography(&encoded);
    assert_eq!(decoded.dimensions(), (1, 3));
    assert_eq!(
        decoded.pixels(),
        &vec![pixel(128, 0, 128), pixel(0, 128, 0), pixel(0, 128, 0)]
    );
}

#[test]
fn decode_is_applied_once() {
    let encoded: PixelBuffer = PixelBuffer::new(1, 1, vec![pixel(1, 3, 255)]).unwrap();
    let once: PixelBuffer = decode_lsb_steganography(&encoded);
    assert_eq!(once.pixels(), &vec![pixel(128, 128, 128)]);
    let twice: PixelBuffer = decode_lsb_steganography(&once);
    assert_eq!(twice.pixels(), &vec![pixel(0, 0, 0)]);
}

#[test]
fn round_trip_recovers_the_top_bit_plane() {
    let secret: PixelBuffer = patterned(31, 17, 7);
    let decoy: PixelBuffer = patterned(31, 17, 99);
    let encoded: PixelBuffer = perform_lsb_steganography(&secret, &decoy).unwrap();
    let decoded: PixelBuffer = decode_lsb_steganography(&encoded);
    assert_eq!(decoded.dimensions(), secret.dimensions());
    for i in 0..secret.len() {
        let hidden_pixel: Pixel = secret.pixels()[i];
        assert_eq!(
            decoded.pixels()[i],
            pixel(hidden_pixel.red & 128, hidden_pixel.green & 128, hidden_pixel.blue & 128)
        );
        let cover: Pixel = decoy.pixels()[i];
        let stored: Pixel = encoded.pixels()[i];
        assert_eq!(stored.red & 254, cover.red & 254);
        assert_eq!(stored.green & 254, cover.green & 254);
        assert_eq!(stored.blue & 254, cover.blue & 254);
    }
}

#[test]
fn every_degree_gives_the_sequential_result() {
    let secret: PixelBuffer = patterned(13, 11, 5);
    let decoy: PixelBuffer = patterned(13, 11, 6);
    let count: usize = secret.len();
    let expected: Vec<Pixel> = encoded_one_by_one(&secret, &decoy);
    let sequential: PixelBuffer =
        perform_lsb_steganography_with_degree(&secret, &decoy, 1).unwrap();
    assert_eq!(sequential.pixels(), &expected);
    let decoded_sequential: PixelBuffer = decode_lsb_steganography_with_degree(&sequential, 1);
    for degree in [0usize, 1, 2, 3, 4, 7, 8, 64, count - 1, count, count + 1, 10 * count, usize::MAX] {
        let encoded: PixelBuffer =
            perform_lsb_steganography_with_degree(&secret, &decoy, degree).unwrap();
        assert_eq!(encoded, sequential);
        assert_eq!(encoded.to_raw(), sequential.to_raw());
        let decoded: PixelBuffer = decode_lsb_steganography_with_degree(&encoded, degree);
        assert_eq!(decoded, decoded_sequential);
    }
    assert_eq!(perform_lsb_steganography(&secret, &decoy).unwrap(), sequential);
    assert_eq!(decode_lsb_steganography(&sequential), decoded_sequential);
}

#[test]
fn one_piece_per_pixel_on_a_larger_image() {
    let secret: PixelBuffer = patterned(64, 48, 11);
    let decoy: PixelBuffer = patterned(64, 48, 12);
    let count: usize = secret.len();
    let sequential: PixelBuffer =
        perform_lsb_steganography_with_degree(&secret, &decoy, 1).unwrap();
    let finest: PixelBuffer =
        perform_lsb_steganography_with_degree(&secret, &decoy, count).unwrap();
    assert_eq!(finest.to_raw(), sequential.to_raw());
    assert_eq!(sequential.pixels(), &encoded_one_by_one(&secret, &decoy));
}

#[test]
fn empty_and_single_pixel_images() {
    let empty: PixelBuffer = PixelBuffer::new(0, 0, Vec::new()).unwrap();
    for degree in 0..4usize {
        let encoded: PixelBuffer =
            perform_lsb_steganography_with_degree(&empty, &empty, degree).unwrap();
        assert_eq!(encoded.len(), 0);
        assert_eq!(encoded.dimensions(), (0, 0));
        assert_eq!(decode_lsb_steganography_with_degree(&empty, degree).len(), 0);
    }
    let secret: PixelBuffer = PixelBuffer::new(1, 1, vec![pixel(128, 127, 255)]).unwrap();
    let decoy: PixelBuffer = PixelBuffer::new(1, 1, vec![pixel(8, 9, 10)]).unwrap();
    for degree in 0..4usize {
        let encoded: PixelBuffer =
            perform_lsb_steganography_with_degree(&secret, &decoy, degree).unwrap();
        assert_eq!(encoded.pixels(), &vec![pixel(9, 8, 11)]);
    }
}

#[test]
fn inputs_are_left_as_they_were() {
    let secret: PixelBuffer = patterned(5, 5, 3);
    let decoy: PixelBuffer = patterned(5, 5, 4);
    let secret_before: PixelBuffer = secret.clone();
    let decoy_before: PixelBuffer = decoy.clone();
    let encoded: PixelBuffer = perform_lsb_steganography(&secret, &decoy).unwrap();
    let encoded_before: PixelBuffer = encoded.clone();
    let _decoded: PixelBuffer = decode_lsb_steganography(&encoded);
    assert_eq!(secret, secret_before);
    assert_eq!(decoy, decoy_before);
    assert_eq!(encoded, encoded_before);
}
