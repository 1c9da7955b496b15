use kinect_one::command::{
    ColorSettingResponse, DepthParamsResponse, FirmwareVersionResponse, P0TablesResponse,
    RgbParamsResponse,
};
use kinect_one::data::{read_firware_versions, ColorParams, FirwareVersion, IrParams, P0Tables};
use kinect_one::Error;

fn floats(values: &[f32]) -> Vec<u8> {
    values.iter().flat_map(|value| value.to_le_bytes()).collect()
}

#[test]
fn depth_params_are_read_in_wire_order() {
    let mut values = vec![365.0f32, 366.0, 0.0, 255.5, 211.5, 0.1, 0.2, 0.3, 0.4, 0.5];
    values.extend([0.0; 13]);
    let buffer = floats(&values);
    assert_eq!(buffer.len(), 92);
    let params = IrParams::try_from(&buffer).expect("parameters");
    assert_eq!(f32::from_bits(params.fx), 365.0);
    assert_eq!(f32::from_bits(params.fy), 366.0);
    assert_eq!(f32::from_bits(params.cx), 255.5);
    assert_eq!(f32::from_bits(params.cy), 211.5);
    assert_eq!(f32::from_bits(params.k1), 0.1);
    assert_eq!(f32::from_bits(params.k2), 0.2);
    assert_eq!(f32::from_bits(params.p1), 0.3);
    assert_eq!(f32::from_bits(params.p2), 0.4);
    assert_eq!(f32::from_bits(params.k3), 0.5);
}

#[test]
fn short_depth_params_are_refused() {
    assert_eq!(
        IrParams::try_from(&[0u8; 91]),
        Err(Error::UnalignedRead("DepthParamsResponse"))
    );
    assert!(IrParams::try_from(&[0u8; 92]).is_ok());
    assert!(IrParams::try_from(&[0u8; 200]).is_ok());
    assert!(DepthParamsResponse::read_unaligned(&[]).is_err());
    assert_eq!(DepthParamsResponse::size(), 92);
}

#[test]
fn color_params_are_read_behind_the_table_id() {
    let values: Vec<f32> = (1..=25).map(|i| i as f32).collect();
    let mut buffer = vec![1u8];
    buffer.extend(floats(&values));
    buffer.resize(12981, 0);
    let params = ColorParams::try_from(&buffer).expect("parameters");
    assert_eq!(f32::from_bits(params.fx), 1.0);
    assert_eq!(f32::from_bits(params.fy), 1.0);
    assert_eq!(f32::from_bits(params.cx), 2.0);
    assert_eq!(f32::from_bits(params.cy), 3.0);
    assert_eq!(f32::from_bits(params.shift_d), 4.0);
    assert_eq!(f32::from_bits(params.shift_m), 5.0);
    assert_eq!(f32::from_bits(params.mx_x3y0), 6.0);
    assert_eq!(f32::from_bits(params.mx_x0y0), 15.0);
    assert_eq!(f32::from_bits(params.my_x3y0), 16.0);
    assert_eq!(f32::from_bits(params.my_x0y1), 24.0);
    assert_eq!(f32::from_bits(params.my_x0y0), 25.0);
}

#[test]
fn short_color_params_are_refused() {
    assert_eq!(
        ColorParams::try_from(&vec![0u8; 12980]),
        Err(Error::UnalignedRead("RgbParamsResponse"))
    );
    assert_eq!(RgbParamsResponse::size(), 12981);
}

#[test]
fn p0_tables_are_read_between_their_markers() {
    let mut buffer = vec![0u8; 32];
    for table in 0..3u16 {
        buffer.extend(0xaaaau16.to_le_bytes());
        for i in 0..217088u32 {
            buffer.extend(((i as u16).wrapping_mul(3).wrapping_add(table)).to_le_bytes());
        }
        buffer.extend(0xbbbbu16.to_le_bytes());
    }
    assert_eq!(buffer.len(), 1302572);
    let tables = P0Tables::try_from(&buffer).expect("tables");
    for (table, values) in
        [tables.p0_table0(), tables.p0_table1(), tables.p0_table2()].into_iter().enumerate()
    {
        assert_eq!(values.len(), 512 * 424);
        assert_eq!(values[0], table as u16);
        assert_eq!(values[1], 3 + table as u16);
        assert_eq!(values[217087], (217087u32 as u16).wrapping_mul(3).wrapping_add(table as u16));
    }
    let copy = tables.clone();
    assert_eq!(copy.p0_table1(), tables.p0_table1());
}

#[test]
fn short_p0_tables_are_refused() {
    let buffer = vec![0u8; 1302571];
    assert_eq!(
        P0Tables::try_from(&buffer).err(),
        Some(Error::UnalignedRead("P0TablesResponse"))
    );
    assert!(P0TablesResponse::read_unaligned(&buffer).is_err());
    assert_eq!(P0TablesResponse::size(), 1302572);
}

#[test]
fn default_p0_tables_are_zero() {
    let tables = P0Tables::default();
    for values in [tables.p0_table0(), tables.p0_table1(), tables.p0_table2()] {
        assert_eq!(values.len(), 512 * 424);
        assert!(values.iter().all(|value| *value == 0));
    }
}

#[test]
fn firmware_version_is_read_minor_first() {
    let buffer = [2, 0, 1, 0, 0x0f, 0x0e, 0, 0, 6, 0, 0, 0, 0xff, 0xff, 0xff, 0xff];
    let version = FirwareVersion::try_from(&buffer).expect("a version");
    assert_eq!(version, FirwareVersion { maj: 1, min: 2, revision: 0x0e0f, build: 6 });
    assert_eq!(
        FirwareVersion::try_from(&buffer[..15]),
        Err(Error::UnalignedRead("FirmwareVersionResponse"))
    );
    assert_eq!(FirmwareVersionResponse::size(), 16);
}

#[test]
fn firmware_versions_are_read_entry_by_entry() {
    let mut buffer = Vec::new();
    for i in 0..3u16 {
        buffer.extend((10 + i).to_le_bytes());
        buffer.extend((20 + i).to_le_bytes());
        buffer.extend((30 + i as u32).to_le_bytes());
        buffer.extend((40 + i as u32).to_le_bytes());
        buffer.extend(0u32.to_le_bytes());
    }
    buffer.extend([1, 2, 3]);
    let versions = read_firware_versions(&buffer);
    assert_eq!(versions.len(), 3);
    assert_eq!(versions[2], FirwareVersion { maj: 22, min: 12, revision: 32, build: 42 });
    assert!(read_firware_versions(&[0; 15]).is_empty());
    assert_eq!(read_firware_versions(&[0; 0x200]).len(), 32);
}

#[test]
fn color_setting_response_holds_its_value_in_the_fourth_word() {
    let mut buffer = vec![0u8; 12];
    buffer.extend(0x40400000u32.to_le_bytes());
    assert_eq!(ColorSettingResponse::read_unaligned(&buffer).map(|r| r.data), Ok(0x40400000));
    assert_eq!(
        ColorSettingResponse::read_unaligned(&buffer[..15]).err(),
        Some(Error::UnalignedRead("ColorSettingResponse"))
    );
}

#[test]
fn default_params_are_zero() {
    assert_eq!(IrParams::default().fx, 0);
    assert_eq!(IrParams::default(), IrParams::try_from(&[0u8; 92]).unwrap());
    assert_eq!(ColorParams::default().my_x0y0, 0);
}
