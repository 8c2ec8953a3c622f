use vstd::prelude::*;

verus! {

/// Business errors of the domain.
#[derive(Debug, Clone, PartialEq, Eq)]
pub enum DomainError {
    /// A business rule rejected a value.
    Validation(String),
    /// The requested entity does not exist.
    NotFound(String),
    /// The operation is not allowed in the current state.
    InvalidOperation(String),
    /// Two amounts of different currencies were combined.
    CurrencyMismatch {
        /// Code of the left-hand currency.
        left: String,
        /// Code of the right-hand currency.
        right: String,
    },
}

/// Standard result of a domain operation.
pub type DomainResult<T> = Result<T, DomainError>;

/// `e` is a validation error carrying the text `text`.
pub open spec fn is_validation(e: DomainError, text: Seq<char>) -> bool {
    e matches DomainError::Validation(m) && m@ == text
}

/// `e` is an invalid-operation error carrying the text `text`.
pub open spec fn is_invalid_operation(e: DomainError, text: Seq<char>) -> bool {
    e matches DomainError::InvalidOperation(m) && m@ == text
}

/// `e` is a not-found error carrying the text `text`.
pub open spec fn is_not_found(e: DomainError, text: Seq<char>) -> bool {
    e matches DomainError::NotFound(m) && m@ == text
}

impl DomainError {
    /// The text of the error as the application shows it.
    pub open spec fn message_spec(self) -> Seq<char> {
        match self {
            DomainError::Validation(m) => "Validación de dominio fallida: "@ + m@,
            DomainError::NotFound(m) => "Entidad no encontrada: "@ + m@,
            DomainError::InvalidOperation(m) => "Operación inválida: "@ + m@,
            DomainError::CurrencyMismatch { left, right } => "Las monedas no coinciden: "@ + left@
                + " != "@ + right@,
        }
    }

    /// The text of the error as the application shows it.
    pub fn message(&self) -> (r: String)
        ensures
            r@ == self.message_spec(),
    {
        match self {
            DomainError::Validation(m) => {
                let mut text = "Validación de dominio fallida: ".to_owned();
                text.append(m.as_str());
                text
            },
            DomainError::NotFound(m) => {
                let mut text = "Entidad no encontrada: ".to_owned();
                text.append(m.as_str());
                text
            },
            DomainError::InvalidOperation(m) => {
                let mut text = "Operación inválida: ".to_owned();
                text.append(m.as_str());
                text
            },
            DomainError::CurrencyMismatch { left, right } => {
                let mut text = "Las monedas no coinciden: ".to_owned();
                text.append(left.as_str());
                text.append(" != ");
                text.append(right.as_str());
                text
            },
        }
    }

    /// A validation error carrying `message`.
    pub fn validation(message: &str) -> (r: DomainError)
        ensures
            r matches DomainError::Validation(m) && m@ == message@,
    {
        DomainError::Validation(message.to_owned())
    }

    /// An invalid-operation error carrying `message`.
    pub fn invalid_operation(message: &str) -> (r: DomainError)
        ensures
            r matches DomainError::InvalidOperation(m) && m@ == message@,
    {
        DomainError::InvalidOperation(message.to_owned())
    }

    /// A not-found error carrying `message`.
    pub fn not_found(message: &str) -> (r: DomainError)
        ensures
            r matches DomainError::NotFound(m) && m@ == message@,
    {
        DomainError::NotFound(message.to_owned())
    }
}

} // verus!
