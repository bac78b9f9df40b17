use bw8::uasm::{
    AddressBusAssert, AluOperation, ControlWord, DataBusAssert, DataBusLoad, TransferBusAssert,
};

#[test]
fn a_control_word_names_what_each_bus_carries() {
    let fetch = ControlWord {
        data_assert: DataBusAssert::Memory,
        data_load: DataBusLoad::Temp1,
        address_assert: AddressBusAssert::ProgramCounter,
        alu_op: AluOperation::Nop,
        xfer_assert: TransferBusAssert::A_A,
    };
    let add = ControlWord { data_assert: DataBusAssert::Alu, data_load: DataBusLoad::A, alu_op: AluOperation::Add, ..fetch };
    assert_eq!(fetch.address_assert, AddressBusAssert::ProgramCounter);
    assert_eq!(add.alu_op, AluOperation::Add);
    assert_ne!(fetch, add);
    assert_eq!(add.xfer_assert, TransferBusAssert::A_A);
}
