use wlc::{Geometry, Point, Size};

#[test]
fn test_ord_point() {
    {
        let p1 = Point { x: 100, y: 200 };
        let p2 = Point { x: 100, y: 300 };
        assert!(p1 < p2);
    }

    {
        let p1 = Point { x: 100, y: 200 };
        let p2 = Point { x: 200, y: 300 };
        assert!(p1 < p2);
    }

    {
        let p1 = Point { x: 100, y: 200 };
        let p2 = Point { x: 200, y: 200 };
        assert!(p1 < p2);
    }

    {
        let p1 = Point { x: 200, y: 300 };
        let p2 = Point { x: 100, y: 300 };
        assert!(p1 > p2);
    }

    {
        let p1 = Point { x: 200, y: 400 };
        let p2 = Point { x: 100, y: 300 };
        assert!(p1 > p2);
    }

    {
        let p1 = Point { x: 200, y: 300 };
        let p2 = Point { x: 200, y: 200 };
        assert!(p1 > p2);
    }

    {
        let p1 = Point { x: 100, y: 300 };
        let p2 = Point { x: 300, y: 100 };
        assert_eq!(p1.partial_cmp(&p2), None);
    }

    {
        let p1 = Point { x: 300, y: 100 };
        let p2 = Point { x: 100, y: 300 };
        assert_eq!(p1.partial_cmp(&p2), None);
    }
}

#[test]
fn test_ord_size() {
    {
        let s1 = Size { w: 100, h: 200 };
        let s2 = Size { w: 100, h: 300 };
        assert!(s1 < s2);
    }

    {
        let s1 = Size { w: 100, h: 200 };
        let s2 = Size { w: 200, h: 300 };
        assert!(s1 < s2);
    }

    {
        let s1 = Size { w: 100, h: 200 };
        let s2 = Size { w: 200, h: 200 };
        assert!(s1 < s2);
    }

    {
        let s1 = Size { w: 200, h: 300 };
        let s2 = Size { w: 100, h: 300 };
        assert!(s1 > s2);
    }

    {
        let s1 = Size { w: 200, h: 400 };
        let s2 = Size { w: 100, h: 300 };
        assert!(s1 > s2);
    }

    {
        let s1 = Size { w: 200, h: 300 };
        let s2 = Size { w: 200, h: 200 };
        assert!(s1 > s2);
    }

    {
        let s1 = Size { w: 100, h: 300 };
        let s2 = Size { w: 300, h: 100 };
        assert_eq!(s1.partial_cmp(&s2), None);
    }

    {
        let s1 = Size { w: 300, h: 100 };
        let s2 = Size { w: 100, h: 300 };
        assert_eq!(s1.partial_cmp(&s2), None);
    }
}

#[test]
fn test_ord_geo() {
    {
        let g1 = Geometry {
            origin: Point { x: 0, y: 200 },
            size: Size { w: 100, h: 200 },
        };
        let g2 = Geometry {
            origin: Point { x: 100, y: 200 },
            size: Size { w: 100, h: 200 },
        };
        assert!(g1 < g2);
    }

    {
        let g1 = Geometry {
            origin: Point { x: 0, y: 200 },
            size: Size { w: 100, h: 200 },
        };
        let g2 = Geometry {
            origin: Point { x: 0, y: 200 },
            size: Size { w: 100, h: 300 },
        };
        assert!(g1 < g2);
    }

    {
        let g1 = Geometry {
            origin: Point { x: 100, y: 200 },
            size: Size { w: 100, h: 200 },
        };
        let g2 = Geometry {
            origin: Point { x: 0, y: 200 },
            size: Size { w: 100, h: 200 },
        };
        assert!(g1 > g2);
    }

    {
        let g1 = Geometry {
            origin: Point { x: 100, y: 200 },
            size: Size { w: 100, h: 300 },
        };
        let g2 = Geometry {
            origin: Point { x: 100, y: 200 },
            size: Size { w: 100, h: 200 },
        };
        assert!(g1 > g2);
    }

    {
        let g1 = Geometry {
            origin: Point { x: 200, y: 200 },
            size: Size { w: 100, h: 300 },
        };
        let g2 = Geometry {
            origin: Point { x: 100, y: 200 },
            size: Size { w: 100, h: 400 },
        };
        assert_eq!(g1.partial_cmp(&g2), None);
    }
}
