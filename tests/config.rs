use file_exchange::{ModelConfig, Repr};

#[test]
fn model_configurations() {
    let m = ModelConfig::new("minilm");
    assert_eq!((m.max_length(), m.pad_token_id(), m.dimension()), (512, 0, 384));
    let b = ModelConfig::new("bge");
    assert_eq!((b.max_length(), b.pad_token_id(), b.dimension()), (512, 0, 768));
}

#[test]
fn repr_keeps_its_value() {
    let r = Repr::<u32>::new(7);
    assert_eq!(*r.get(), 7);
    assert_eq!(r.into_inner(), 7);
}

#[test]
fn repr_from_value_in_either_format() {
    let b: Repr<u8> = Repr::from(3u8);
    assert_eq!(*b.get(), 3);
    let r: Repr<[u8; 2], file_exchange::Raw> = Repr::from([1u8, 2]);
    assert_eq!(r.into_inner(), [1, 2]);
}
