use triple_buffer::{back_index_of, is_dirty, pack_back_info};
use triple_buffer::{TripleBuffer, BACK_DIRTY_BIT, BACK_INDEX_MASK};

#[derive(Default, PartialEq, Eq, Debug)]
struct MyStruct {
    goose: u32,
}

#[test]
fn my_test() {
    let mut goose_buffer: TripleBuffer<MyStruct> = TripleBuffer::new_const(
        MyStruct { goose: 0 },
        MyStruct { goose: 0 },
        MyStruct { goose: 0 },
    );
    let goose_writer = goose_buffer.get_writer();
    let goose_reader = goose_buffer.get_reader();

    goose_writer.write(&mut goose_buffer, MyStruct { goose: 2 });
    let evil_goose_1 = goose_reader.read(&mut goose_buffer);
    println!("{:?}", *evil_goose_1);

    goose_writer.write(&mut goose_buffer, MyStruct { goose: 3 });
    goose_writer.write(&mut goose_buffer, MyStruct { goose: 4 });

    assert!(*goose_reader.read(&mut goose_buffer) == MyStruct { goose: 4 })
}

#[test]
fn my_other_test() {
    let mut goose_buffer: TripleBuffer<MyStruct> = TripleBuffer::new_const(
        MyStruct { goose: 0 },
        MyStruct { goose: 0 },
        MyStruct { goose: 0 },
    );

    let count = 1000;

    let goose_writer = goose_buffer.get_writer();
    let goose_reader = goose_buffer.get_reader();
    for i in 0..=count {
        goose_writer.write(&mut goose_buffer, MyStruct { goose: i as u32 });
        if i % 3 == 0 {
            goose_reader.read(&mut goose_buffer);
        }
    }

    assert!(*goose_reader.read(&mut goose_buffer) == MyStruct { goose: count })
}

#[test]
fn good_reader_access_test() {
    let mut goose_buffer: TripleBuffer<MyStruct> = TripleBuffer::new_const(
        MyStruct { goose: 0 },
        MyStruct { goose: 0 },
        MyStruct { goose: 0 },
    );
    let goose_reader = goose_buffer.get_reader();
    goose_buffer.release_reader(goose_reader);
    let _evil_reader = goose_buffer.get_reader();
}

#[derive(Default, PartialEq, Eq, Debug)]
struct Cat {
    is_there_cat: bool,
}

impl Cat {
    fn bring_cat(&mut self) {
        self.is_there_cat = true;
    }
}

#[derive(Default, PartialEq, Eq, Debug)]
struct MyBiggerStruct {
    goose: u32,
    duck: u32,
    cat: Cat,
}

fn initial_bigger() -> MyBiggerStruct {
    MyBiggerStruct {
        goose: 0,
        duck: 1,
        cat: Cat { is_there_cat: false },
    }
}

#[test]
fn direct_input_test() {
    let mut goose_buffer: TripleBuffer<MyBiggerStruct> =
        TripleBuffer::new_const(initial_bigger(), initial_bigger(), initial_bigger());
    let goose_writer = goose_buffer.get_writer();
    let goose_reader = goose_buffer.get_reader();

    let temp_goose = goose_writer.input_buffer(&mut goose_buffer);
    temp_goose.goose = 4;
    temp_goose.duck = 2;
    temp_goose.cat.bring_cat();
    goose_writer.publish(&mut goose_buffer);

    let evil_goose_1 = goose_reader.read(&mut goose_buffer);
    println!("{:?}", *evil_goose_1);

    assert!(
        *goose_reader.read(&mut goose_buffer)
            == MyBiggerStruct {
                goose: 4,
                duck: 2,
                cat: Cat { is_there_cat: true }
            }
    )
}

#[test]
fn second_reader_refused() {
    let mut buffer: TripleBuffer<u32> = TripleBuffer::new_const(0, 0, 0);
    let reader = buffer.get_reader();
    assert!(buffer.try_get_reader().is_none());
    buffer.release_reader(reader);
    assert!(buffer.try_get_reader().is_some());
}

#[test]
fn second_writer_refused() {
    let mut buffer: TripleBuffer<u32> = TripleBuffer::new_const(0, 0, 0);
    let writer = buffer.get_writer();
    assert!(buffer.try_get_writer().is_none());
    buffer.release_writer(writer);
    assert!(buffer.try_get_writer().is_some());
}

#[test]
fn dirty_bit_lifecycle() {
    let mut buffer: TripleBuffer<u32> = TripleBuffer::new_const(0, 0, 0);
    let writer = buffer.get_writer();
    let reader = buffer.get_reader();

    assert!(!reader.updated(&buffer));
    assert!(writer.consumed(&buffer));

    writer.write(&mut buffer, 5);
    assert!(reader.updated(&buffer));
    assert!(!writer.consumed(&buffer));

    reader.read(&mut buffer);
    assert!(!reader.updated(&buffer));
    assert!(writer.consumed(&buffer));
}

#[test]
fn idempotent_reread() {
    let mut buffer: TripleBuffer<u32> = TripleBuffer::new_const(0, 0, 0);
    let writer = buffer.get_writer();
    let reader = buffer.get_reader();

    writer.write(&mut buffer, 5);
    let first = *reader.read(&mut buffer);
    assert_eq!(first, 5);
    assert!(!reader.updated(&buffer));
    let second = *reader.read(&mut buffer);
    assert_eq!(second, first);
}

#[derive(Default, PartialEq, Eq, Debug)]
struct Correlated {
    count: u32,
    double: u32,
}

#[test]
fn correlated_fields_stay_whole() {
    let mut buffer: TripleBuffer<Correlated> = TripleBuffer::new_const(
        Correlated { count: 0, double: 0 },
        Correlated { count: 0, double: 0 },
        Correlated { count: 0, double: 0 },
    );
    let writer = buffer.get_writer();
    let reader = buffer.get_reader();

    for count in 1..200u32 {
        writer.write(
            &mut buffer,
            Correlated {
                count,
                double: count * 2,
            },
        );
        if count % 7 == 0 {
            let seen = reader.read(&mut buffer);
            assert_eq!(seen.double, seen.count * 2);
        }
    }
    let last = reader.read(&mut buffer);
    assert_eq!(last.count, 199);
    assert_eq!(last.double, 398);
}

#[test]
fn read_without_publish_keeps_initial_output() {
    let mut buffer: TripleBuffer<u32> = TripleBuffer::new_const(1, 2, 3);
    let reader = buffer.get_reader();
    assert_eq!(*reader.read(&mut buffer), 3);
}

#[test]
fn publish_reports_skipped_generation() {
    let mut buffer: TripleBuffer<u32> = TripleBuffer::new_const(0, 0, 0);
    let writer = buffer.get_writer();
    let reader = buffer.get_reader();

    let slot = writer.input_buffer(&mut buffer);
    *slot = 1;
    assert!(!writer.publish(&mut buffer));

    let slot = writer.input_buffer(&mut buffer);
    *slot = 2;
    assert!(writer.publish(&mut buffer));

    assert_eq!(*reader.read(&mut buffer), 2);
    let slot = writer.input_buffer(&mut buffer);
    *slot = 3;
    assert!(!writer.publish(&mut buffer));
}

#[test]
fn update_reports_swap() {
    let mut buffer: TripleBuffer<u32> = TripleBuffer::new_const(0, 0, 0);
    let writer = buffer.get_writer();
    let reader = buffer.get_reader();

    assert!(!reader.update(&mut buffer));
    writer.write(&mut buffer, 9);
    assert!(reader.update(&mut buffer));
    assert!(!reader.update(&mut buffer));
    assert_eq!(*reader.output_buffer(&mut buffer), 9);
}

#[test]
fn generator_constructor() {
    let mut buffer: TripleBuffer<MyStruct> = TripleBuffer::new(MyStruct::default);
    let writer = buffer.get_writer();
    let reader = buffer.get_reader();
    assert_eq!(*reader.read(&mut buffer), MyStruct { goose: 0 });
    writer.write(&mut buffer, MyStruct { goose: 9 });
    assert_eq!(*reader.read(&mut buffer), MyStruct { goose: 9 });
}

#[test]
fn packed_word_exact_values() {
    assert_eq!(BACK_INDEX_MASK, 0b11);
    assert_eq!(BACK_DIRTY_BIT, 0b100);
    assert_eq!(pack_back_info(2, true), 0b110);
    assert_eq!(pack_back_info(1, false), 0b001);
    assert_eq!(back_index_of(0b110), 2);
    assert_eq!(back_index_of(0b001), 1);
    assert!(is_dirty(0b110));
    assert!(!is_dirty(0b001));
}
