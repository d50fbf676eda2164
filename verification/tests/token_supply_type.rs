use hedera::token::token_supply_type::TokenSupplyType;
use hedera::wire;
use hedera::Error;

#[test]
fn it_can_convert_to_protobuf() -> Result<(), Error> {
    let infinite_supply_type = TokenSupplyType::Infinite;
    let finite_supply_type = TokenSupplyType::Finite;

    let infinite_protobuf = infinite_supply_type.to_protobuf();
    let finite_protobuf = finite_supply_type.to_protobuf();

    assert_eq!(infinite_protobuf, wire::TokenSupplyType::Infinite);
    assert_eq!(finite_protobuf, wire::TokenSupplyType::Finite);

    Ok(())
}

#[test]
fn it_can_be_created_from_protobuf() -> Result<(), Error> {
    let infinite_protobuf = wire::TokenSupplyType::Infinite;
    let finite_protobuf = wire::TokenSupplyType::Finite;

    let infinite_supply_type = TokenSupplyType::from_protobuf(infinite_protobuf)?;
    let finite_supply_type = TokenSupplyType::from_protobuf(finite_protobuf)?;

    assert_eq!(infinite_supply_type, TokenSupplyType::Infinite);
    assert_eq!(finite_supply_type, TokenSupplyType::Finite);

    Ok(())
}
