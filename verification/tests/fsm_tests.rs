use base::fsm::State;

#[derive(Debug, Eq, PartialEq)]
pub enum VendingStates {
    WaitingForCoins,
    DispensingItem,
    GivingChange,
}

#[derive(Debug, Eq, PartialEq)]
pub enum VendingInput {
    InsertCoins(u32),
    SelectItem(String),
}

pub fn do_handle(current: VendingStates, input: VendingInput) -> VendingStates {
    match current {
        VendingStates::WaitingForCoins => {
            if let VendingInput::InsertCoins(coins) = input {
                println!("Inserted {} coins", coins);

                VendingStates::DispensingItem
            } else {
                current
            }
        }
        VendingStates::DispensingItem => {
            if let VendingInput::SelectItem(item) = input {
                println!("Dispensing item: {}", item);

                VendingStates::GivingChange
            } else {
                current
            }
        }
        VendingStates::GivingChange => {
            if let VendingInput::InsertCoins(coins) = input {
                println!("Giving {} coins as change", coins);

                VendingStates::WaitingForCoins
            } else {
                current
            }
        }
    }
}

impl State for VendingStates {
    type Input = VendingInput;
    type Next = VendingStates;

    fn handle(self, input: Self::Input) -> Self::Next {
        do_handle(self, input)
    }
}

#[derive(Debug)]
pub struct VendingMachine<S: State> {
    state: S,
}

impl VendingMachine<VendingStates> {
    pub fn new() -> Self {
        Self {
            state: VendingStates::WaitingForCoins,
        }
    }

    pub fn handle(self, input: VendingInput) -> VendingMachine<VendingStates> {
        VendingMachine {
            state: self.state.handle(input),
        }
    }

    pub fn state(&self) -> &VendingStates {
        &self.state
    }
}

#[test]
fn test_sync() {
    let fsm = VendingMachine::new()
        .handle(VendingInput::InsertCoins(12))
        .handle(VendingInput::SelectItem("coke".into()));

    assert_eq!(fsm.state(), &VendingStates::GivingChange);
}
