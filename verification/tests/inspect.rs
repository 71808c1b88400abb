use erissery_core::{inspect_tensors, DType, TensorInfo};
use safetensors::tensor::TensorView;
use safetensors::{Dtype, SafeTensors};
use std::collections::HashMap;

#[test]
fn inspect_lists_every_tensor() {
    let a = vec![0u8; 24];
    let b = vec![0u8; 4];
    let mut tensors: HashMap<String, TensorView> = HashMap::new();
    tensors.insert("w".to_string(), TensorView::new(Dtype::BF16, vec![3, 4], &a).unwrap());
    tensors.insert("i".to_string(), TensorView::new(Dtype::I32, vec![1], &b).unwrap());
    let bytes = safetensors::serialize(&tensors, None).unwrap();
    let st = SafeTensors::deserialize(&bytes).unwrap();
    let mut infos = inspect_tensors(&st).unwrap();
    infos.sort_by(|x, y| x.name.cmp(&y.name));
    assert_eq!(infos.len(), 2);
    assert_eq!(infos[0].name, "i");
    assert_eq!(infos[0].dtype, DType::I32);
    assert_eq!(infos[0].byte_size, 4);
    assert_eq!(infos[1].name, "w");
    assert_eq!(infos[1].shape, vec![3, 4]);
    assert_eq!(infos[1].num_elements(), 12);
    assert!(infos[1].dtype.needs_conversion());
}

#[test]
fn num_elements_is_the_product_of_the_shape() {
    let info = TensorInfo {
        name: "t".to_string(),
        shape: vec![2, 3, 7],
        dtype: DType::F32,
        byte_size: 168,
    };
    assert_eq!(info.num_elements(), 42);
    let scalar = TensorInfo { name: "s".to_string(), shape: vec![], dtype: DType::F32, byte_size: 4 };
    assert_eq!(scalar.num_elements(), 1);
}
