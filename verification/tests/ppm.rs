use ray_tracing::image_formats::ppm::PPM;
use ray_tracing::utility::color::{color_bytes, linear_to_gamma, to_byte, write_decimal, Color};
use ray_tracing::utility::scalar::Scalar;
use ray_tracing::utility::vec3::Vec3;

fn s(x: f64) -> Scalar {
    Scalar::from_raw((x * 1e6).round() as i64)
}

#[test]
fn cool_ppm() {
    let cols = 256;
    let rows = 256;
    let max_color = 255;

    let ppm = PPM::generate(cols, rows, max_color, |row, col| {
        let r = Scalar::from_int(col as i64).div(Scalar::from_int((cols - 1) as i64));
        let g = Scalar::from_int(row as i64).div(Scalar::from_int((rows - 1) as i64));
        let b = Scalar::zero();

        let r = r.mul(Scalar::from_int(255));
        let g = g.mul(Scalar::from_int(255));

        Color::new(r, g, b)
    });

    let text = ppm.output();
    assert_eq!((ppm.cols, ppm.rows, ppm.max_color), (256, 256, 255));
    assert_eq!(ppm.values.len(), 256 * 256);
    assert_eq!(ppm.values[0], Vec3::zero());
    assert_eq!(ppm.values[255], Color::new(s(255.), s(0.), s(0.)));
    assert_eq!(ppm.values[255 * 256], Color::new(s(0.), s(255.), s(0.)));
    let text = String::from_utf8(text).expect("the text is ASCII");
    let mut lines = text.lines();
    assert_eq!(lines.next(), Some("P3"));
    assert_eq!(lines.next(), Some("256 256"));
    assert_eq!(lines.next(), Some("255"));
    assert_eq!(lines.next(), Some("0 0 0"));
    assert_eq!(text.lines().count(), 3 + 256 * 256);
    assert_eq!(text.lines().last(), Some("255 255 0"));
    assert!(text.ends_with('\n'));
}

#[test]
fn one_white_pixel() {
    let ppm = PPM::new(1, 1, 255, vec![Color::new(s(1.), s(1.), s(1.))]);
    assert_eq!(ppm.output(), b"P3\n1 1\n255\n255 255 255\n".to_vec());
}

#[test]
fn pixels_come_out_row_by_row() {
    let values = vec![
        Color::new(s(1.), s(0.), s(0.)),
        Color::new(s(0.), s(1.), s(0.)),
        Color::new(s(0.), s(0.), s(1.)),
        Color::new(s(0.25), s(0.25), s(0.25)),
        Color::new(s(0.), s(0.), s(0.)),
        Color::new(s(4.), s(-1.), s(0.01)),
    ];
    let ppm = PPM::new(3, 2, 255, values);
    assert_eq!(
        String::from_utf8(ppm.output()).expect("the text is ASCII"),
        "P3\n3 2\n255\n255 0 0\n0 255 0\n0 0 255\n128 128 128\n0 0 0\n255 0 25\n"
    );
    let generated = PPM::generate(3, 2, 200, |row, col| {
        Color::new(Scalar::from_int(row as i64), Scalar::from_int(col as i64), Scalar::zero())
    });
    assert_eq!(generated.max_color, 200);
    for row in 0..2 {
        for col in 0..3 {
            assert_eq!(
                generated.values[row * 3 + col],
                Color::new(Scalar::from_int(row as i64), Scalar::from_int(col as i64), Scalar::zero())
            );
        }
    }
    let empty = PPM::generate(0, 7, 255, |_, _| Vec3::zero());
    assert_eq!(empty.output(), b"P3\n0 7\n255\n".to_vec());
}

#[test]
fn bytes_of_colours() {
    assert_eq!(linear_to_gamma(s(0.25)), s(0.5));
    assert_eq!(linear_to_gamma(s(0.)), s(0.));
    assert_eq!(linear_to_gamma(s(-3.)), s(0.));
    assert_eq!(to_byte(s(0.)), 0);
    assert_eq!(to_byte(s(-1.)), 0);
    assert_eq!(to_byte(s(1.)), 255);
    assert_eq!(to_byte(s(0.998)), 255);
    assert_eq!(to_byte(s(0.99)), 254);
    assert_eq!(to_byte(s(100.)), 255);
    assert_eq!(to_byte(Scalar::infinity()), 255);
    assert_eq!(to_byte(s(0.25)), 128);
    assert_eq!(to_byte(s(0.0001)), 2);
    assert_eq!(color_bytes(&Color::new(s(1.), s(0.25), s(0.))), (255, 128, 0));
    let mut line = b"x".to_vec();
    Color::new(s(1.), s(0.25), s(0.)).write_color(&mut line);
    assert_eq!(line, b"x255 128 0\n".to_vec());
    let mut digits = Vec::new();
    write_decimal(&mut digits, 0);
    digits.push(b' ');
    write_decimal(&mut digits, 7);
    digits.push(b' ');
    write_decimal(&mut digits, 1234567890);
    digits.push(b' ');
    write_decimal(&mut digits, u64::MAX);
    assert_eq!(digits, b"0 7 1234567890 18446744073709551615".to_vec());
}
