use designator_join::join::join;
use designator_join::record::{CombinedRecord, Coordinate, PrimaryRecord, ReferenceRecord};
use designator_join::schema::{combined_columns, primary_columns, Shape};

type SpatialLine = (f64, f64, f64, String, String, f64, f64);
type PlanarLine = (f64, f64, String, String, f64, f64);

fn coord(value: f64) -> Coordinate {
    Coordinate::from_bits(value.to_bits())
}

fn value(coordinate: Coordinate) -> f64 {
    f64::from_bits(coordinate.bits)
}

fn reading(x: f64, y: f64, z: Option<f64>, date: &str, designator: &str) -> PrimaryRecord {
    PrimaryRecord {
        x: coord(x),
        y: coord(y),
        z: z.map(coord),
        date: date.to_string(),
        designator: designator.to_string(),
    }
}

fn led(designator: &str, x: f64, y: f64) -> ReferenceRecord {
    ReferenceRecord { designator: designator.to_string(), x_ref: coord(x), y_ref: coord(y) }
}

fn write_table(shape: Shape, rows: &[CombinedRecord]) -> String {
    let mut writer = csv::WriterBuilder::new().has_headers(false).from_writer(Vec::new());
    writer.write_record(combined_columns(shape)).unwrap();
    for row in rows {
        let (x, y, x_led, y_led) = (value(row.x), value(row.y), value(row.x_ref), value(row.y_ref));
        match row.z {
            Some(z) => {
                writer.serialize((x, y, value(z), &row.date, &row.designator, x_led, y_led)).unwrap()
            }
            None => writer.serialize((x, y, &row.date, &row.designator, x_led, y_led)).unwrap(),
        }
    }
    String::from_utf8(writer.into_inner().unwrap()).unwrap()
}

fn read_table(shape: Shape, text: &str) -> Vec<CombinedRecord> {
    let mut reader = csv::Reader::from_reader(text.as_bytes());
    let header: Vec<String> = reader.headers().unwrap().iter().map(str::to_string).collect();
    assert_eq!(header, combined_columns(shape));
    let mut rows = Vec::new();
    match shape {
        Shape::Spatial => {
            for line in reader.deserialize::<SpatialLine>() {
                let (x, y, z, date, designator, x_led, y_led) = line.unwrap();
                rows.push(CombinedRecord {
                    x: coord(x),
                    y: coord(y),
                    z: Some(coord(z)),
                    date,
                    designator,
                    x_ref: coord(x_led),
                    y_ref: coord(y_led),
                });
            }
        }
        Shape::Planar => {
            for line in reader.deserialize::<PlanarLine>() {
                let (x, y, date, designator, x_led, y_led) = line.unwrap();
                rows.push(CombinedRecord {
                    x: coord(x),
                    y: coord(y),
                    z: None,
                    date,
                    designator,
                    x_ref: coord(x_led),
                    y_ref: coord(y_led),
                });
            }
        }
    }
    rows
}

#[test]
fn joined_row_is_written_under_its_header() {
    let out = join(&vec![reading(1.0, 2.0, None, "d1", "A")], &vec![led("A", 10.0, 20.0)]);
    assert_eq!(
        write_table(Shape::Planar, &out),
        "x,y,date,designator,x_led,y_led\n1.0,2.0,d1,A,10.0,20.0\n"
    );
}

#[test]
fn empty_output_is_written_as_the_header_alone() {
    let out = join(&Vec::new(), &vec![led("A", 10.0, 20.0)]);
    assert_eq!(write_table(Shape::Spatial, &out), "x,y,z,date,designator,x_led,y_led\n");
    assert_eq!(write_table(Shape::Planar, &out), "x,y,date,designator,x_led,y_led\n");
    assert_eq!(read_table(Shape::Spatial, &write_table(Shape::Spatial, &out)), out);
}

#[test]
fn spatial_rows_read_back_as_written() {
    let primary = vec![
        reading(0.1, -2.5e-7, Some(1e21), "2024-05-01 10:00:00.125", "LED-1"),
        reading(f64::MAX, f64::MIN_POSITIVE, Some(-0.0), "", "LED-2"),
        reading(3.0, 4.0, Some(5.0), "never", "LED-9"),
        reading(1.0 / 3.0, 2.0 / 3.0, Some(123456789.125), "d", "LED-1"),
    ];
    let reference = vec![led("LED-1", 640.0, 480.0), led("LED-2", 0.30000000000000004, 1e-300)];
    let out = join(&primary, &reference);
    assert_eq!(out.len(), 3);
    let text = write_table(Shape::Spatial, &out);
    assert_eq!(read_table(Shape::Spatial, &text), out);
}

#[test]
fn planar_rows_read_back_as_written() {
    let primary = vec![reading(1.5, 2.5, None, "d1", "A"), reading(3.5, 4.5, None, "d2", "B")];
    let reference = vec![led("A", 10.0, 20.0), led("B", 30.0, 40.0)];
    let out = join(&primary, &reference);
    let text = write_table(Shape::Planar, &out);
    assert_eq!(read_table(Shape::Planar, &text), out);
}

#[test]
fn text_with_delimiter_quote_or_line_break_reads_back_as_written() {
    let primary = vec![
        reading(1.0, 2.0, None, "1 May, 2024", "L,1"),
        reading(1.0, 2.0, None, "first line\nsecond line", "L\"2\""),
        reading(1.0, 2.0, None, " padded ", "L 3"),
    ];
    let reference = vec![led("L,1", 1.0, 1.0), led("L\"2\"", 2.0, 2.0), led("L 3", 3.0, 3.0)];
    let out = join(&primary, &reference);
    assert_eq!(out.len(), 3);
    let text = write_table(Shape::Planar, &out);
    assert!(text.contains("\"1 May, 2024\",\"L,1\""));
    assert!(text.contains(", padded ,L 3,"));
    assert_eq!(read_table(Shape::Planar, &text), out);
}

#[test]
fn non_numeric_x_is_refused_with_the_line_of_its_row() {
    let header = primary_columns(Shape::Spatial).join(",");
    let text = format!("{header}\n1.0,2.0,3.0,d1,A\nabc,2.0,3.0,d2,B\n4.0,5.0,6.0,d3,C\n");
    let mut reader = csv::Reader::from_reader(text.as_bytes());
    let mut lines = reader.deserialize::<(f64, f64, f64, String, String)>();
    assert!(lines.next().unwrap().is_ok());
    let error = lines.next().unwrap().unwrap_err();
    assert!(matches!(error.kind(), csv::ErrorKind::Deserialize { .. }));
    assert_eq!(error.position().map(|position| position.line()), Some(3));
}
