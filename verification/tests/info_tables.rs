use stg_info::bitmap::{Bitmap, StgLargeBitmapRef, StgSmallBitmap};
use stg_info::flags::ClosureFlag;
use stg_info::info_table::{
    info_table_of, ClosureRef, StgClosureInfo, StgInfoTable, StgPointerFirst, StgProfInfo,
    StgSRTField, INFO_TABLE_BYTES, NO_SRT,
};
use stg_info::kinds::{ClosureKind, LayoutKind, RuntimeTables, TableKind};
use stg_info::layout::Layout;
use stg_info::memory::{BuildConfig, StaticData};
use stg_info::views::{
    expect_kind, StgConInfoTable, StgFunInfoExtra, StgFunInfoTable, StgRetInfoTable,
    StgThunkInfoTable, CON_EXTRA_BYTES, CON_INFO_TABLE_BYTES, FUN_EXTRA_BYTES,
    FUN_INFO_TABLE_BYTES,
};
use stg_info::types::{DecodeError, StgClosureType, StgFunType};

const TAG_PLAIN: u32 = 0;
const TAG_FUNCTION: u32 = 1;
const TAG_RETURN: u32 = 2;
const TAG_THUNK: u32 = 3;
const TAG_CONSTRUCTOR: u32 = 4;

const ARG_SMALL: u32 = 0;
const ARG_LARGE: u32 = 1;
const ARG_COUNTS: u32 = 2;
const ARG_SELECTOR: u32 = 3;

fn default_build() -> BuildConfig {
    BuildConfig { word_bits: 64, profiling: false, tables_next_to_code: true }
}

fn tables() -> RuntimeTables {
    let kind = |table: TableKind| ClosureKind {
        flags: ClosureFlag(0),
        table,
        layout: LayoutKind::Counts,
    };
    RuntimeTables {
        closure_kinds: vec![
            kind(TableKind::Generic),
            kind(TableKind::Function),
            kind(TableKind::Return),
            kind(TableKind::Thunk),
            kind(TableKind::Constructor),
        ],
        fun_layouts: vec![
            LayoutKind::SmallBitmap,
            LayoutKind::LargeBitmap,
            LayoutKind::Counts,
            LayoutKind::Selector,
        ],
    }
}

fn info_table_bytes(layout: u64, tag: u32, srt: i32) -> Vec<u8> {
    let mut bytes = Vec::new();
    bytes.extend_from_slice(&layout.to_le_bytes());
    bytes.extend_from_slice(&tag.to_le_bytes());
    bytes.extend_from_slice(&srt.to_le_bytes());
    bytes
}

fn fun_table_bytes(slow_apply: i64, bitmap: u64, fun_type: u32, arity: u32, layout: u64) -> Vec<u8> {
    let mut bytes = Vec::new();
    bytes.extend_from_slice(&slow_apply.to_le_bytes());
    bytes.extend_from_slice(&bitmap.to_le_bytes());
    bytes.extend_from_slice(&fun_type.to_le_bytes());
    bytes.extend_from_slice(&arity.to_le_bytes());
    bytes.extend_from_slice(&info_table_bytes(layout, TAG_FUNCTION, 0));
    bytes
}

fn table(addr: u64, tag: u32, srt: i32) -> StgInfoTable {
    StgInfoTable {
        addr,
        prof: StgProfInfo {},
        layout: StgClosureInfo { raw: 0 },
        type_: StgClosureType(tag),
        srt: StgSRTField { srt },
    }
}

#[test]
fn table_sizes() {
    assert_eq!(INFO_TABLE_BYTES, 16);
    assert_eq!(FUN_EXTRA_BYTES, 24);
    assert_eq!(FUN_INFO_TABLE_BYTES, 40);
    assert_eq!(CON_EXTRA_BYTES, 8);
    assert_eq!(CON_INFO_TABLE_BYTES, 24);
    assert_eq!(NO_SRT, 0);
}

#[test]
fn info_table_lies_in_front_of_the_entry_code() {
    let mut bytes = vec![0xaa; 8];
    bytes.extend_from_slice(&info_table_bytes(0x0000_0002_0000_0003, 7, -24));
    bytes.extend_from_slice(&[0xcc; 8]);
    let data = StaticData::new(&default_build(), 0x1000, bytes).unwrap();
    let info = info_table_of(&data, ClosureRef { addr: 0x9000, entry: 0x1018 }).unwrap();
    assert_eq!(info.addr, 0x1008);
    assert_eq!(info.layout, StgClosureInfo { raw: 0x0000_0002_0000_0003 });
    assert_eq!(info.type_, StgClosureType(7));
    assert_eq!(info.srt, StgSRTField { srt: -24 });
    assert_eq!(StgInfoTable::read(&data, 0x1008), Some(info));
}

#[test]
fn info_table_outside_the_data_is_out_of_bounds() {
    let data =
        StaticData::new(&default_build(), 0x1000, info_table_bytes(0, 0, 0)).unwrap();
    assert!(info_table_of(&data, ClosureRef { addr: 0, entry: 0x1010 }).is_ok());
    for entry in [0u64, 15, 0x100f, 0x1011, 0x1020, u64::MAX] {
        assert_eq!(
            info_table_of(&data, ClosureRef { addr: 0, entry }),
            Err(DecodeError::OutOfBounds)
        );
    }
    assert_eq!(StgInfoTable::read(&data, 0x0ff8), None);
    assert_eq!(StgInfoTable::read(&data, 0x1001), None);
}

#[test]
fn layout_word_reads_as_each_variant() {
    let word = StgClosureInfo { raw: 0x0000_0002_0000_0003 };
    assert_eq!(word.payload(), StgPointerFirst { ptrs: 3, nptrs: 2 });
    assert_eq!(word.small_bitmap(), StgSmallBitmap(0x0000_0002_0000_0003));
    assert_eq!(word.large_bitmap(), StgLargeBitmapRef { offset: 0x0000_0002_0000_0003 });
    assert_eq!(word.selector_offset(), 0x0000_0002_0000_0003);
    let negative = StgClosureInfo { raw: u64::MAX - 7 };
    assert_eq!(negative.large_bitmap().offset, -8);
    assert_eq!(negative.payload(), StgPointerFirst { ptrs: 0xffff_fff8, nptrs: 0xffff_ffff });
}

#[test]
fn get_srt_counts_from_the_end_of_the_table() {
    let ret = StgRetInfoTable { i: table(0x4000, TAG_RETURN, 0x20) };
    assert_eq!(ret.get_srt(), Some(0x4030));
    let thunk = StgThunkInfoTable { i: table(0x4000, TAG_THUNK, 0x20) };
    assert_eq!(thunk.get_srt(), Some(0x4030));
}

#[test]
fn get_srt_follows_negative_offsets() {
    let ret = StgRetInfoTable { i: table(0x4000, TAG_RETURN, -0x110) };
    assert_eq!(ret.get_srt(), Some(0x3f00));
    let thunk = StgThunkInfoTable { i: table(0x4000, TAG_THUNK, -16) };
    assert_eq!(thunk.get_srt(), Some(0x4000));
    let lowest = StgRetInfoTable { i: table(0x1_0000_0000, TAG_RETURN, i32::MIN) };
    assert_eq!(lowest.get_srt(), Some(0x8000_0010));
    let highest = StgThunkInfoTable { i: table(0, TAG_THUNK, i32::MAX) };
    assert_eq!(highest.get_srt(), Some(0x8000_000f));
}

#[test]
fn get_srt_is_absent_for_the_sentinel() {
    assert_eq!(StgRetInfoTable { i: table(0x4000, TAG_RETURN, NO_SRT) }.get_srt(), None);
    assert_eq!(StgThunkInfoTable { i: table(0x4000, TAG_THUNK, NO_SRT) }.get_srt(), None);
    assert_eq!(table(0x4000, TAG_PLAIN, 0).srt_address(), None);
    assert_eq!(table(0x4000, TAG_PLAIN, 8).srt_address(), Some(0x4018));
}

#[test]
fn return_and_thunk_tables_ask_for_their_kind() {
    let tables = tables();
    let ret = table(0x4000, TAG_RETURN, 8);
    let thunk = table(0x4000, TAG_THUNK, 8);
    assert_eq!(StgRetInfoTable::from_info_table(&tables, ret), Ok(StgRetInfoTable { i: ret }));
    assert_eq!(
        StgThunkInfoTable::from_info_table(&tables, thunk),
        Ok(StgThunkInfoTable { i: thunk })
    );
    assert_eq!(
        StgRetInfoTable::from_info_table(&tables, thunk),
        Err(DecodeError::WrongTableKind)
    );
    assert_eq!(
        StgThunkInfoTable::from_info_table(&tables, ret),
        Err(DecodeError::WrongTableKind)
    );
    let unknown = table(0x4000, 5, 8);
    assert_eq!(StgRetInfoTable::from_info_table(&tables, unknown), Err(DecodeError::UnknownTag));
    assert_eq!(
        StgThunkInfoTable::from_info_table(&tables, unknown),
        Err(DecodeError::UnknownTag)
    );
}

#[test]
fn expect_kind_gives_the_entry_of_the_tag() {
    let tables = tables();
    let info = table(0, TAG_FUNCTION, 0);
    assert_eq!(
        expect_kind(&tables, &info, TableKind::Function),
        Ok(ClosureKind {
            flags: ClosureFlag(0),
            table: TableKind::Function,
            layout: LayoutKind::Counts
        })
    );
    assert_eq!(
        expect_kind(&tables, &info, TableKind::Generic),
        Err(DecodeError::WrongTableKind)
    );
    assert_eq!(
        expect_kind(&tables, &table(0, 99, 0), TableKind::Generic),
        Err(DecodeError::UnknownTag)
    );
}

#[test]
fn constructor_description_is_resolved_from_the_end_of_the_table() {
    let mut bytes = Vec::new();
    bytes.extend_from_slice(&(-16i64).to_le_bytes());
    bytes.extend_from_slice(&info_table_bytes(0, TAG_CONSTRUCTOR, 0));
    assert_eq!(bytes.len() as u64, CON_INFO_TABLE_BYTES);
    let data = StaticData::new(&default_build(), 0x1000, bytes).unwrap();
    let info = info_table_of(&data, ClosureRef { addr: 0x8000, entry: 0x1000 + 24 }).unwrap();
    assert_eq!(info.addr, 0x1000 + CON_EXTRA_BYTES);
    let con = StgConInfoTable::from_info_table(&data, &tables(), info).unwrap();
    assert_eq!(con.con_desc_offset, -16);
    assert_eq!(con.i, info);
    assert_eq!(con.descriptor_string(), 0x1008);
}

#[test]
fn constructor_description_may_follow_the_table() {
    let con = StgConInfoTable { con_desc_offset: 0x100, i: table(0x2008, TAG_CONSTRUCTOR, 0) };
    assert_eq!(con.descriptor_string(), 0x2118);
    let at_end = StgConInfoTable { con_desc_offset: 0, i: table(0x2008, TAG_CONSTRUCTOR, 0) };
    assert_eq!(at_end.descriptor_string(), 0x2018);
}

#[test]
fn constructor_table_errors() {
    let tables = tables();
    let data = StaticData::new(
        &default_build(),
        0x1000,
        info_table_bytes(0, TAG_CONSTRUCTOR, 0),
    )
    .unwrap();
    let info = StgInfoTable::read(&data, 0x1000).unwrap();
    assert_eq!(
        StgConInfoTable::from_info_table(&data, &tables, info),
        Err(DecodeError::OutOfBounds)
    );
    assert_eq!(
        StgConInfoTable::from_info_table(&data, &tables, table(4, TAG_CONSTRUCTOR, 0)),
        Err(DecodeError::OutOfBounds)
    );
    assert_eq!(
        StgConInfoTable::from_info_table(&data, &tables, table(0x1008, TAG_THUNK, 0)),
        Err(DecodeError::WrongTableKind)
    );
    assert_eq!(
        StgConInfoTable::from_info_table(&data, &tables, table(0x1008, 1000, 0)),
        Err(DecodeError::UnknownTag)
    );
}

#[test]
fn function_table_is_read_in_front_of_the_generic_table() {
    let bytes = fun_table_bytes(-0x80, 0x82, ARG_SMALL, 2, 0);
    assert_eq!(bytes.len() as u64, FUN_INFO_TABLE_BYTES);
    let data = StaticData::new(&default_build(), 0x2000, bytes).unwrap();
    let info = info_table_of(&data, ClosureRef { addr: 0x9000, entry: 0x2028 }).unwrap();
    assert_eq!(info.addr, 0x2018);
    let fun = StgFunInfoTable::from_info_table(&data, &tables(), info).unwrap();
    assert_eq!(
        fun.f,
        StgFunInfoExtra {
            slow_apply: -0x80,
            bitmap: Bitmap { raw: 0x82 },
            fun_type: StgFunType(ARG_SMALL),
            arity: 2,
        }
    );
    assert_eq!(fun.i, info);
    assert_eq!(fun.arity(), 2);
    assert_eq!(fun.calling_convention_tag(), StgFunType(ARG_SMALL));
    assert_eq!(fun.slow_apply_entry(), 0x2028 - 0x80);
    assert_eq!(StgFunInfoExtra::read(&data, 0x2000), Some(fun.f));
    assert_eq!(StgFunInfoExtra::read(&data, 0x2011), None);
}

#[test]
fn function_table_errors() {
    let tables = tables();
    let data = StaticData::new(
        &default_build(),
        0x2000,
        fun_table_bytes(0, 0, ARG_SMALL, 0, 0),
    )
    .unwrap();
    assert_eq!(
        StgFunInfoTable::from_info_table(&data, &tables, table(0x2018, TAG_RETURN, 0)),
        Err(DecodeError::WrongTableKind)
    );
    assert_eq!(
        StgFunInfoTable::from_info_table(&data, &tables, table(0x2018, 64, 0)),
        Err(DecodeError::UnknownTag)
    );
    assert_eq!(
        StgFunInfoTable::from_info_table(&data, &tables, table(0x2010, TAG_FUNCTION, 0)),
        Err(DecodeError::OutOfBounds)
    );
    assert_eq!(
        StgFunInfoTable::from_info_table(&data, &tables, table(16, TAG_FUNCTION, 0)),
        Err(DecodeError::OutOfBounds)
    );
}

#[test]
fn function_layout_follows_the_calling_convention() {
    let tables = tables();
    let mut bytes = fun_table_bytes(0, 0xc5, ARG_SMALL, 1, 0x0000_0001_0000_0002);
    bytes.extend_from_slice(&2u64.to_le_bytes());
    bytes.extend_from_slice(&[0; 16]);
    let data = StaticData::new(&default_build(), 0x2000, bytes).unwrap();
    let info = StgInfoTable::read(&data, 0x2018).unwrap();
    let fun = StgFunInfoTable::from_info_table(&data, &tables, info).unwrap();
    assert_eq!(
        fun.bitmap_or_count(&data, &tables),
        Ok(Layout::SmallBitmap(StgSmallBitmap(0xc5)))
    );

    let counted = StgFunInfoTable {
        f: StgFunInfoExtra { fun_type: StgFunType(ARG_COUNTS), ..fun.f },
        i: info,
    };
    assert_eq!(
        counted.bitmap_or_count(&data, &tables),
        Ok(Layout::Counts(StgPointerFirst { ptrs: 2, nptrs: 1 }))
    );

    let large = StgFunInfoTable {
        f: StgFunInfoExtra { fun_type: StgFunType(ARG_LARGE), bitmap: Bitmap { raw: 0 }, ..fun.f },
        i: info,
    };
    match large.bitmap_or_count(&data, &tables) {
        Ok(Layout::LargeBitmap(bitmap)) => {
            assert_eq!(bitmap.size, 2);
            assert_eq!(bitmap.bitmap.addr, 0x2030);
        }
        other => panic!("{:?}", other),
    }

    let missing = StgFunInfoTable {
        f: StgFunInfoExtra {
            fun_type: StgFunType(ARG_LARGE),
            bitmap: Bitmap { raw: 24 },
            ..fun.f
        },
        i: info,
    };
    assert_eq!(missing.bitmap_or_count(&data, &tables), Err(DecodeError::OutOfBounds));

    let selector = StgFunInfoTable {
        f: StgFunInfoExtra { fun_type: StgFunType(ARG_SELECTOR), ..fun.f },
        i: info,
    };
    assert_eq!(
        selector.bitmap_or_count(&data, &tables),
        Err(DecodeError::UnsupportedConfiguration)
    );

    let unknown = StgFunInfoTable {
        f: StgFunInfoExtra { fun_type: StgFunType(4), ..fun.f },
        i: info,
    };
    assert_eq!(unknown.bitmap_or_count(&data, &tables), Err(DecodeError::UnknownTag));
}

#[test]
fn generic_layout_reads_the_layout_word() {
    let mut bytes = info_table_bytes(0x0000_0001_0000_0002, TAG_PLAIN, 0);
    bytes.extend_from_slice(&1u64.to_le_bytes());
    bytes.extend_from_slice(&[0; 8]);
    let data = StaticData::new(&default_build(), 0x6000, bytes).unwrap();
    let info = StgInfoTable::read(&data, 0x6000).unwrap();
    assert_eq!(
        info.layout_as(&data, LayoutKind::Counts),
        Ok(Layout::Counts(StgPointerFirst { ptrs: 2, nptrs: 1 }))
    );
    assert_eq!(
        info.layout_as(&data, LayoutKind::SmallBitmap),
        Ok(Layout::SmallBitmap(StgSmallBitmap(0x0000_0001_0000_0002)))
    );
    assert_eq!(
        info.layout_as(&data, LayoutKind::Selector),
        Err(DecodeError::UnsupportedConfiguration)
    );
    assert_eq!(info.layout_as(&data, LayoutKind::LargeBitmap), Err(DecodeError::OutOfBounds));
    let referring = StgInfoTable { layout: StgClosureInfo { raw: 0 }, ..info };
    match referring.layout_as(&data, LayoutKind::LargeBitmap) {
        Ok(Layout::LargeBitmap(bitmap)) => {
            assert_eq!(bitmap.size, 1);
            assert_eq!(bitmap.bitmap.addr, 0x6018);
        }
        other => panic!("{:?}", other),
    }
}
