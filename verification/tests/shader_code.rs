use wire::pipeline::{read_shader_code, ShaderError, SPIRV_MAGIC};

#[test]
fn little_endian_spirv_is_read() {
    let bytes = [0x03, 0x02, 0x23, 0x07, 0x00, 0x05, 0x01, 0x00, 0x01, 0x00, 0x00, 0x00];
    let words = read_shader_code(&bytes).unwrap();
    assert_eq!(words, vec![SPIRV_MAGIC, 0x0001_0500, 1]);
}

#[test]
fn big_endian_spirv_is_read() {
    let bytes = [0x07, 0x23, 0x02, 0x03, 0x00, 0x01, 0x05, 0x00, 0x00, 0x00, 0x00, 0x01];
    let words = read_shader_code(&bytes).unwrap();
    assert_eq!(words, vec![SPIRV_MAGIC, 0x0001_0500, 1]);
}

#[test]
fn magic_only() {
    assert_eq!(read_shader_code(&[0x03, 0x02, 0x23, 0x07]).unwrap(), vec![0x0723_0203]);
}

#[test]
fn not_spirv_is_refused() {
    assert_eq!(read_shader_code(&[]), Err(ShaderError::InvalidSpirv));
    assert_eq!(read_shader_code(&[0x03, 0x02, 0x23, 0x07, 0x00]), Err(ShaderError::InvalidSpirv));
    assert_eq!(read_shader_code(&[0x03, 0x02, 0x23, 0x08]), Err(ShaderError::InvalidSpirv));
    assert_eq!(read_shader_code(&[0x00, 0x00, 0x00, 0x00, 0x03, 0x02, 0x23, 0x07]), Err(ShaderError::InvalidSpirv));
}
